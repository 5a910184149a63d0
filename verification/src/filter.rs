//! The filter-to-query compiler.
//!
//! A sparse `ItemFilter` becomes one `SELECT` statement: a fixed column
//! list, one predicate per present criterion, and an ordered list of bound
//! parameter values.  Values are only ever bound as parameters — the
//! statement text is assembled exclusively from the fixed clause literals
//! below, so no caller value can reach the statement text.  Each `?`
//! placeholder binds the parameter at its own position, so no two
//! predicates can collide on a parameter slot.
//!
//! `row_matches` is the declarative meaning of a compiled filter: the
//! conjunction of its criteria over one stored row.  Exact criteria
//! compare the stored encoding — labels as text, flags as the stored
//! integer.  Text ranges compare
//! lexicographically, which for the fixed-width date form is calendar
//! order.  When no `deleted` criterion is given, only rows whose deleted
//! flag is clear are meant: listing hides soft-deleted records unless they
//! are asked for.

use vstd::prelude::*;
use vstd::string::*;
use crate::dates::{date_text, Date};
use crate::models::{ItemFilter};
use crate::row::RowModel;
use crate::text::{contains_sub, str_le};

verus! {

/// A value bound to one statement parameter.
#[derive(Clone, Debug)]
pub enum SqlValue {
    Int(i64),
    Text(String),
}

/// Mathematical value of a bound parameter.
pub enum SqlValueM {
    Int(int),
    Text(Seq<char>),
}

impl View for SqlValue {
    type V = SqlValueM;

    open spec fn view(&self) -> SqlValueM {
        match self {
            SqlValue::Int(v) => SqlValueM::Int(*v as int),
            SqlValue::Text(s) => SqlValueM::Text(s@),
        }
    }
}

/// What a read asks the store for: every row a filter admits, or the row
/// carrying one id.
#[derive(Clone, Debug)]
pub enum StoreQuery {
    Filter(ItemFilter),
    ById(i64),
}

/// Whether one stored row satisfies every criterion of the filter.
pub open spec fn row_matches(f: ItemFilter, r: RowModel) -> bool {
    &&& (match f.name_contains {
        Some(s) => s@.len() == 0 || contains_sub(r.name, s@),
        None => true,
    })
    &&& (match f.description_contains {
        Some(s) => s@.len() == 0 || contains_sub(r.description, s@),
        None => true,
    })
    &&& (match f.creator_contains {
        Some(s) => s@.len() == 0 || (match r.creator {
            Some(c) => contains_sub(c, s@),
            None => false,
        }),
        None => true,
    })
    &&& (match f.provenance_contains {
        Some(s) => s@.len() == 0 || (match r.provenance {
            Some(p) => contains_sub(p, s@),
            None => false,
        }),
        None => true,
    })
    &&& (match f.category {
        Some(c) => r.category == c.spec_label(),
        None => true,
    })
    &&& (match f.action {
        Some(a) => r.action == a.spec_label(),
        None => true,
    })
    &&& (match f.working {
        Some(b) => r.working == Some(
            if b {
                1int
            } else {
                0int
            },
        ),
        None => true,
    })
    &&& (match f.deleted {
        Some(b) => r.deleted == (if b {
            1int
        } else {
            0int
        }),
        None => r.deleted == 0,
    })
    &&& (match f.date_added_min {
        Some(d) => str_le(date_text(d@), r.date_added),
        None => true,
    })
    &&& (match f.date_added_max {
        Some(d) => str_le(r.date_added, date_text(d@)),
        None => true,
    })
    &&& (match f.last_updated_min {
        Some(d) => str_le(date_text(d@), r.last_updated),
        None => true,
    })
    &&& (match f.last_updated_max {
        Some(d) => str_le(r.last_updated, date_text(d@)),
        None => true,
    })
    &&& (match f.date_acquired_min {
        Some(d) => match r.date_acquired {
            Some(t) => str_le(date_text(d@), t),
            None => false,
        },
        None => true,
    })
    &&& (match f.date_acquired_max {
        Some(d) => match r.date_acquired {
            Some(t) => str_le(t, date_text(d@)),
            None => false,
        },
        None => true,
    })
    &&& (match f.age_years_min {
        Some(a) => match r.age_years {
            Some(v) => v >= a,
            None => false,
        },
        None => true,
    })
    &&& (match f.age_years_max {
        Some(a) => match r.age_years {
            Some(v) => v <= a,
            None => false,
        },
        None => true,
    })
    &&& (match f.purchase_price_min {
        Some(p) => match r.purchase_price {
            Some(v) => v >= p,
            None => false,
        },
        None => true,
    })
    &&& (match f.purchase_price_max {
        Some(p) => match r.purchase_price {
            Some(v) => v <= p,
            None => false,
        },
        None => true,
    })
    &&& (match f.estimated_value_min {
        Some(p) => match r.estimated_value {
            Some(v) => v >= p,
            None => false,
        },
        None => true,
    })
    &&& (match f.estimated_value_max {
        Some(p) => match r.estimated_value {
            Some(v) => v <= p,
            None => false,
        },
        None => true,
    })
}

/// Whether a stored row answers a query.
pub open spec fn query_admits(q: StoreQuery, r: RowModel) -> bool {
    match q {
        StoreQuery::Filter(f) => row_matches(f, r),
        StoreQuery::ById(id) => r.id == id as int,
    }
}

/// A filter with no criterion admits exactly the rows whose deleted flag is
/// clear: the unfiltered listing and the empty filter agree, and both leave
/// soft-deleted records out.
pub proof fn lemma_unconstrained_matches(f: ItemFilter, r: RowModel)
    requires
        crate::models::unconstrained(f),
    ensures
        row_matches(f, r) == (r.deleted == 0),
{
}

/// Which criteria are present in each of two filters, side by side: the
/// shape of a filter, with every value ignored.
pub open spec fn same_shape(f: ItemFilter, g: ItemFilter) -> bool {
    &&& (f.name_contains is Some) == (g.name_contains is Some)
    &&& (f.description_contains is Some) == (g.description_contains is Some)
    &&& (f.creator_contains is Some) == (g.creator_contains is Some)
    &&& (f.provenance_contains is Some) == (g.provenance_contains is Some)
    &&& (f.category is Some) == (g.category is Some)
    &&& (f.action is Some) == (g.action is Some)
    &&& (f.working is Some) == (g.working is Some)
    &&& (f.deleted is Some) == (g.deleted is Some)
    &&& (f.date_added_min is Some) == (g.date_added_min is Some)
    &&& (f.date_added_max is Some) == (g.date_added_max is Some)
    &&& (f.last_updated_min is Some) == (g.last_updated_min is Some)
    &&& (f.last_updated_max is Some) == (g.last_updated_max is Some)
    &&& (f.date_acquired_min is Some) == (g.date_acquired_min is Some)
    &&& (f.date_acquired_max is Some) == (g.date_acquired_max is Some)
    &&& (f.age_years_min is Some) == (g.age_years_min is Some)
    &&& (f.age_years_max is Some) == (g.age_years_max is Some)
    &&& (f.purchase_price_min is Some) == (g.purchase_price_min is Some)
    &&& (f.purchase_price_max is Some) == (g.purchase_price_max is Some)
    &&& (f.estimated_value_min is Some) == (g.estimated_value_min is Some)
    &&& (f.estimated_value_max is Some) == (g.estimated_value_max is Some)
}

/// No caller value ever reaches the statement text: two filters of the
/// same shape compile to the very same text, whatever their values, which
/// all travel as bound parameters.
pub proof fn lemma_sql_is_value_free(f: ItemFilter, g: ItemFilter)
    requires
        same_shape(f, g),
    ensures
        query_sql(StoreQuery::Filter(f)) == query_sql(StoreQuery::Filter(g)),
{
    assert(likes_sql(f) == likes_sql(g));
    assert(exacts_sql(f) == exacts_sql(g));
    assert(dates_sql(f) == dates_sql(g));
    assert(nums_sql(f) == nums_sql(g));
}

/// Two pointwise-equal predicates keep the same rows.
pub proof fn lemma_filter_congruence<A>(s: Seq<A>, p: spec_fn(A) -> bool, q: spec_fn(A) -> bool)
    requires
        forall|x: A| #[trigger] p(x) == q(x),
    ensures
        s.filter(p) == s.filter(q),
    decreases s.len(),
{
    reveal(Seq::filter);
    if s.len() > 0 {
        lemma_filter_congruence(s.drop_last(), p, q);
    }
}

/// Everything a filter keeps was in the sequence.
pub proof fn lemma_filter_elems<A>(s: Seq<A>, p: spec_fn(A) -> bool)
    ensures
        forall|i: int| 0 <= i < s.filter(p).len() ==> s.contains(#[trigger] s.filter(p)[i]),
    decreases s.len(),
{
    reveal(Seq::filter);
    if s.len() > 0 {
        lemma_filter_elems(s.drop_last(), p);
        assert forall|i: int| 0 <= i < s.filter(p).len() implies s.contains(
            #[trigger] s.filter(p)[i],
        ) by {
            let sub = s.drop_last().filter(p);
            if i < sub.len() {
                assert(s.drop_last().contains(sub[i]));
                let j = choose|j: int|
                    0 <= j < s.drop_last().len() && s.drop_last()[j] == sub[i];
                assert(s[j] == sub[i]);
            } else {
                assert(s[s.len() - 1] == s.filter(p)[i]);
            }
        }
    }
}

pub open spec fn clause_if(present: bool, clause: Seq<char>) -> Seq<char> {
    if present {
        clause
    } else {
        Seq::empty()
    }
}

pub open spec fn base_sql() -> Seq<char> {
    "SELECT id, name, description, category, action, date_added, last_updated, age_years, date_acquired, purchase_price, estimated_value, creator, working, provenance, deleted FROM items WHERE 1=1"@
}

pub open spec fn likes_sql(f: ItemFilter) -> Seq<char> {
    clause_if(f.name_contains is Some, " AND (? = '' OR instr(name, ?) > 0)"@) + clause_if(
        f.description_contains is Some,
        " AND (? = '' OR instr(description, ?) > 0)"@,
    ) + clause_if(f.creator_contains is Some, " AND (? = '' OR instr(creator, ?) > 0)"@)
        + clause_if(f.provenance_contains is Some, " AND (? = '' OR instr(provenance, ?) > 0)"@)
}

pub open spec fn exacts_sql(f: ItemFilter) -> Seq<char> {
    clause_if(f.category is Some, " AND category = ?"@) + clause_if(
        f.action is Some,
        " AND action = ?"@,
    ) + clause_if(f.working is Some, " AND working = ?"@) + (if f.deleted is Some {
        " AND deleted = ?"@
    } else {
        " AND deleted = 0"@
    })
}

pub open spec fn dates_sql(f: ItemFilter) -> Seq<char> {
    clause_if(f.date_added_min is Some, " AND date_added >= ?"@) + clause_if(
        f.date_added_max is Some,
        " AND date_added <= ?"@,
    ) + clause_if(f.last_updated_min is Some, " AND last_updated >= ?"@) + clause_if(
        f.last_updated_max is Some,
        " AND last_updated <= ?"@,
    ) + clause_if(f.date_acquired_min is Some, " AND date_acquired >= ?"@) + clause_if(
        f.date_acquired_max is Some,
        " AND date_acquired <= ?"@,
    )
}

pub open spec fn nums_sql(f: ItemFilter) -> Seq<char> {
    clause_if(f.age_years_min is Some, " AND age_years >= ?"@) + clause_if(
        f.age_years_max is Some,
        " AND age_years <= ?"@,
    ) + clause_if(f.purchase_price_min is Some, " AND purchase_price >= ?"@) + clause_if(
        f.purchase_price_max is Some,
        " AND purchase_price <= ?"@,
    ) + clause_if(f.estimated_value_min is Some, " AND estimated_value >= ?"@) + clause_if(
        f.estimated_value_max is Some,
        " AND estimated_value <= ?"@,
    )
}

/// The statement text a query compiles to.
pub open spec fn query_sql(q: StoreQuery) -> Seq<char> {
    match q {
        StoreQuery::ById(_) => base_sql() + " AND id = ?"@ + " ORDER BY id"@,
        StoreQuery::Filter(f) => base_sql() + likes_sql(f) + exacts_sql(f) + dates_sql(f)
            + nums_sql(f) + " ORDER BY id"@,
    }
}

pub open spec fn like_params(opt: Option<String>) -> Seq<SqlValueM> {
    match opt {
        Some(s) => seq![SqlValueM::Text(s@), SqlValueM::Text(s@)],
        None => Seq::empty(),
    }
}

pub open spec fn text_param(opt: Option<Seq<char>>) -> Seq<SqlValueM> {
    match opt {
        Some(t) => seq![SqlValueM::Text(t)],
        None => Seq::empty(),
    }
}

pub open spec fn flag_param(opt: Option<bool>) -> Seq<SqlValueM> {
    match opt {
        Some(b) => seq![
            SqlValueM::Int(
                if b {
                    1int
                } else {
                    0int
                },
            ),
        ],
        None => Seq::empty(),
    }
}

pub open spec fn date_param(opt: Option<Date>) -> Seq<SqlValueM> {
    match opt {
        Some(d) => seq![SqlValueM::Text(date_text(d@))],
        None => Seq::empty(),
    }
}

pub open spec fn age_param(opt: Option<u32>) -> Seq<SqlValueM> {
    match opt {
        Some(a) => seq![SqlValueM::Int(a as int)],
        None => Seq::empty(),
    }
}

pub open spec fn cents_param(opt: Option<i64>) -> Seq<SqlValueM> {
    match opt {
        Some(c) => seq![SqlValueM::Int(c as int)],
        None => Seq::empty(),
    }
}

pub open spec fn likes_params(f: ItemFilter) -> Seq<SqlValueM> {
    like_params(f.name_contains) + like_params(f.description_contains) + like_params(
        f.creator_contains,
    ) + like_params(f.provenance_contains)
}

pub open spec fn exacts_params(f: ItemFilter) -> Seq<SqlValueM> {
    text_param(
        match f.category {
            Some(c) => Some(c.spec_label()),
            None => None,
        },
    ) + text_param(
        match f.action {
            Some(a) => Some(a.spec_label()),
            None => None,
        },
    ) + flag_param(f.working) + flag_param(f.deleted)
}

pub open spec fn dates_params(f: ItemFilter) -> Seq<SqlValueM> {
    date_param(f.date_added_min) + date_param(f.date_added_max) + date_param(f.last_updated_min)
        + date_param(f.last_updated_max) + date_param(f.date_acquired_min) + date_param(
        f.date_acquired_max,
    )
}

pub open spec fn nums_params(f: ItemFilter) -> Seq<SqlValueM> {
    age_param(f.age_years_min) + age_param(f.age_years_max) + cents_param(f.purchase_price_min)
        + cents_param(f.purchase_price_max) + cents_param(f.estimated_value_min) + cents_param(
        f.estimated_value_max,
    )
}

/// The parameter values a query compiles to, in binding order.
pub open spec fn query_params(q: StoreQuery) -> Seq<SqlValueM> {
    match q {
        StoreQuery::ById(id) => seq![SqlValueM::Int(id as int)],
        StoreQuery::Filter(f) => likes_params(f) + exacts_params(f) + dates_params(f)
            + nums_params(f),
    }
}

fn push_clause(s: &mut String, clause: &str)
    ensures
        final(s)@ == old(s)@ + clause@,
{
    s.append(clause);
}

fn push_param(vals: &mut Vec<SqlValue>, v: SqlValue)
    ensures
        final(vals)@.map_values(|x: SqlValue| x@) == old(vals)@.map_values(|x: SqlValue| x@).push(
            v@,
        ),
{
    vals.push(v);
    proof {
        assert(final(vals)@.map_values(|x: SqlValue| x@) =~= old(vals)@.map_values(
            |x: SqlValue| x@,
        ).push(v@));
    }
}

fn add_like_clause(s: &mut String, vals: &mut Vec<SqlValue>, opt: &Option<String>, clause: &str)
    ensures
        final(s)@ == old(s)@ + clause_if(opt is Some, clause@),
        final(vals)@.map_values(|x: SqlValue| x@) == old(vals)@.map_values(|x: SqlValue| x@)
            + like_params(*opt),
{
    let ghost s0 = s@;
    let ghost p0 = vals@.map_values(|x: SqlValue| x@);
    if let Some(x) = opt {
        push_clause(s, clause);
        push_param(vals, SqlValue::Text(x.clone()));
        push_param(vals, SqlValue::Text(x.clone()));
    }
    proof {
        assert(s@ =~= s0 + clause_if(opt is Some, clause@));
        assert(vals@.map_values(|x: SqlValue| x@) =~= p0 + like_params(*opt));
    }
}

fn add_likes(s: &mut String, vals: &mut Vec<SqlValue>, f: &ItemFilter)
    ensures
        final(s)@ == old(s)@ + likes_sql(*f),
        final(vals)@.map_values(|x: SqlValue| x@) == old(vals)@.map_values(|x: SqlValue| x@)
            + likes_params(*f),
{
    let ghost s0 = s@;
    let ghost p0 = vals@.map_values(|x: SqlValue| x@);
    add_like_clause(s, vals, &f.name_contains, " AND (? = '' OR instr(name, ?) > 0)");
    add_like_clause(
        s,
        vals,
        &f.description_contains,
        " AND (? = '' OR instr(description, ?) > 0)",
    );
    add_like_clause(s, vals, &f.creator_contains, " AND (? = '' OR instr(creator, ?) > 0)");
    add_like_clause(s, vals, &f.provenance_contains, " AND (? = '' OR instr(provenance, ?) > 0)");
    proof {
        let c1 = clause_if(f.name_contains is Some, " AND (? = '' OR instr(name, ?) > 0)"@);
        let c2 = clause_if(
            f.description_contains is Some,
            " AND (? = '' OR instr(description, ?) > 0)"@,
        );
        let c3 = clause_if(f.creator_contains is Some, " AND (? = '' OR instr(creator, ?) > 0)"@);
        let c4 = clause_if(
            f.provenance_contains is Some,
            " AND (? = '' OR instr(provenance, ?) > 0)"@,
        );
        crate::text::lemma_cat_assoc(s0, c1, c2);
        crate::text::lemma_cat_assoc(s0, c1 + c2, c3);
        crate::text::lemma_cat_assoc(s0, c1 + c2 + c3, c4);
        assert(s@ == s0 + likes_sql(*f));
        let d1 = like_params(f.name_contains);
        let d2 = like_params(f.description_contains);
        let d3 = like_params(f.creator_contains);
        let d4 = like_params(f.provenance_contains);
        crate::text::lemma_cat_assoc(p0, d1, d2);
        crate::text::lemma_cat_assoc(p0, d1 + d2, d3);
        crate::text::lemma_cat_assoc(p0, d1 + d2 + d3, d4);
        assert(vals@.map_values(|x: SqlValue| x@) == p0 + likes_params(*f));
    }
}

fn add_exacts(s: &mut String, vals: &mut Vec<SqlValue>, f: &ItemFilter)
    ensures
        final(s)@ == old(s)@ + exacts_sql(*f),
        final(vals)@.map_values(|x: SqlValue| x@) == old(vals)@.map_values(|x: SqlValue| x@)
            + exacts_params(*f),
{
    let ghost s0 = s@;
    let ghost p0 = vals@.map_values(|x: SqlValue| x@);
    if let Some(c) = &f.category {
        push_clause(s, " AND category = ?");
        push_param(vals, SqlValue::Text(c.label()));
    }
    if let Some(a) = &f.action {
        push_clause(s, " AND action = ?");
        push_param(vals, SqlValue::Text(a.label()));
    }
    if let Some(b) = f.working {
        push_clause(s, " AND working = ?");
        push_param(
            vals,
            SqlValue::Int(
                if b {
                    1
                } else {
                    0
                },
            ),
        );
    }
    if let Some(b) = f.deleted {
        push_clause(s, " AND deleted = ?");
        push_param(
            vals,
            SqlValue::Int(
                if b {
                    1
                } else {
                    0
                },
            ),
        );
    } else {
        push_clause(s, " AND deleted = 0");
    }
    proof {
        let c1 = clause_if(f.category is Some, " AND category = ?"@);
        let c2 = clause_if(f.action is Some, " AND action = ?"@);
        let c3 = clause_if(f.working is Some, " AND working = ?"@);
        let c4 = if f.deleted is Some {
            " AND deleted = ?"@
        } else {
            " AND deleted = 0"@
        };
        crate::text::lemma_cat_assoc(s0, c1, c2);
        crate::text::lemma_cat_assoc(s0, c1 + c2, c3);
        crate::text::lemma_cat_assoc(s0, c1 + c2 + c3, c4);
        assert(s@ == s0 + exacts_sql(*f));
        let d1 = text_param(
            match f.category {
                Some(c) => Some(c.spec_label()),
                None => None,
            },
        );
        let d2 = text_param(
            match f.action {
                Some(a) => Some(a.spec_label()),
                None => None,
            },
        );
        let d3 = flag_param(f.working);
        let d4 = flag_param(f.deleted);
        crate::text::lemma_cat_assoc(p0, d1, d2);
        crate::text::lemma_cat_assoc(p0, d1 + d2, d3);
        crate::text::lemma_cat_assoc(p0, d1 + d2 + d3, d4);
        assert(vals@.map_values(|x: SqlValue| x@) =~= p0 + exacts_params(*f));
    }
}

fn add_date_range(
    s: &mut String,
    vals: &mut Vec<SqlValue>,
    lo: &Option<Date>,
    hi: &Option<Date>,
    lo_clause: &str,
    hi_clause: &str,
)
    ensures
        final(s)@ == old(s)@ + clause_if(lo is Some, lo_clause@) + clause_if(
            hi is Some,
            hi_clause@,
        ),
        final(vals)@.map_values(|x: SqlValue| x@) == old(vals)@.map_values(|x: SqlValue| x@)
            + date_param(*lo) + date_param(*hi),
{
    let ghost s0 = s@;
    let ghost p0 = vals@.map_values(|x: SqlValue| x@);
    if let Some(d) = lo {
        push_clause(s, lo_clause);
        push_param(vals, SqlValue::Text(d.format()));
    }
    if let Some(d) = hi {
        push_clause(s, hi_clause);
        push_param(vals, SqlValue::Text(d.format()));
    }
    proof {
        assert(s@ =~= s0 + clause_if(lo is Some, lo_clause@) + clause_if(hi is Some, hi_clause@));
        assert(vals@.map_values(|x: SqlValue| x@) =~= p0 + date_param(*lo) + date_param(*hi));
    }
}

fn add_dates(s: &mut String, vals: &mut Vec<SqlValue>, f: &ItemFilter)
    ensures
        final(s)@ == old(s)@ + dates_sql(*f),
        final(vals)@.map_values(|x: SqlValue| x@) == old(vals)@.map_values(|x: SqlValue| x@)
            + dates_params(*f),
{
    let ghost s0 = s@;
    let ghost p0 = vals@.map_values(|x: SqlValue| x@);
    add_date_range(
        s,
        vals,
        &f.date_added_min,
        &f.date_added_max,
        " AND date_added >= ?",
        " AND date_added <= ?",
    );
    add_date_range(
        s,
        vals,
        &f.last_updated_min,
        &f.last_updated_max,
        " AND last_updated >= ?",
        " AND last_updated <= ?",
    );
    add_date_range(
        s,
        vals,
        &f.date_acquired_min,
        &f.date_acquired_max,
        " AND date_acquired >= ?",
        " AND date_acquired <= ?",
    );
    proof {
        let c1 = clause_if(f.date_added_min is Some, " AND date_added >= ?"@);
        let c2 = clause_if(f.date_added_max is Some, " AND date_added <= ?"@);
        let c3 = clause_if(f.last_updated_min is Some, " AND last_updated >= ?"@);
        let c4 = clause_if(f.last_updated_max is Some, " AND last_updated <= ?"@);
        let c5 = clause_if(f.date_acquired_min is Some, " AND date_acquired >= ?"@);
        let c6 = clause_if(f.date_acquired_max is Some, " AND date_acquired <= ?"@);
        crate::text::lemma_cat_assoc(s0, c1, c2);
        crate::text::lemma_cat_assoc(s0, c1 + c2, c3);
        crate::text::lemma_cat_assoc(s0, c1 + c2 + c3, c4);
        crate::text::lemma_cat_assoc(s0, c1 + c2 + c3 + c4, c5);
        crate::text::lemma_cat_assoc(s0, c1 + c2 + c3 + c4 + c5, c6);
        assert(s@ == s0 + dates_sql(*f));
        let d1 = date_param(f.date_added_min);
        let d2 = date_param(f.date_added_max);
        let d3 = date_param(f.last_updated_min);
        let d4 = date_param(f.last_updated_max);
        let d5 = date_param(f.date_acquired_min);
        let d6 = date_param(f.date_acquired_max);
        crate::text::lemma_cat_assoc(p0, d1, d2);
        crate::text::lemma_cat_assoc(p0, d1 + d2, d3);
        crate::text::lemma_cat_assoc(p0, d1 + d2 + d3, d4);
        crate::text::lemma_cat_assoc(p0, d1 + d2 + d3 + d4, d5);
        crate::text::lemma_cat_assoc(p0, d1 + d2 + d3 + d4 + d5, d6);
        assert(vals@.map_values(|x: SqlValue| x@) == p0 + dates_params(*f));
    }
}

fn add_age_clause(s: &mut String, vals: &mut Vec<SqlValue>, v: &Option<u32>, clause: &str)
    ensures
        final(s)@ == old(s)@ + clause_if(v is Some, clause@),
        final(vals)@.map_values(|x: SqlValue| x@) == old(vals)@.map_values(|x: SqlValue| x@)
            + age_param(*v),
{
    let ghost s0 = s@;
    let ghost p0 = vals@.map_values(|x: SqlValue| x@);
    if let Some(a) = v {
        push_clause(s, clause);
        push_param(vals, SqlValue::Int(*a as i64));
    }
    proof {
        assert(s@ =~= s0 + clause_if(v is Some, clause@));
        assert(vals@.map_values(|x: SqlValue| x@) =~= p0 + age_param(*v));
    }
}

fn add_cents_clause(s: &mut String, vals: &mut Vec<SqlValue>, v: &Option<i64>, clause: &str)
    ensures
        final(s)@ == old(s)@ + clause_if(v is Some, clause@),
        final(vals)@.map_values(|x: SqlValue| x@) == old(vals)@.map_values(|x: SqlValue| x@)
            + cents_param(*v),
{
    let ghost s0 = s@;
    let ghost p0 = vals@.map_values(|x: SqlValue| x@);
    if let Some(p) = v {
        push_clause(s, clause);
        push_param(vals, SqlValue::Int(*p));
    }
    proof {
        assert(s@ =~= s0 + clause_if(v is Some, clause@));
        assert(vals@.map_values(|x: SqlValue| x@) =~= p0 + cents_param(*v));
    }
}

fn add_nums(s: &mut String, vals: &mut Vec<SqlValue>, f: &ItemFilter)
    ensures
        final(s)@ == old(s)@ + nums_sql(*f),
        final(vals)@.map_values(|x: SqlValue| x@) == old(vals)@.map_values(|x: SqlValue| x@)
            + nums_params(*f),
{
    let ghost s0 = s@;
    let ghost p0 = vals@.map_values(|x: SqlValue| x@);
    add_age_clause(s, vals, &f.age_years_min, " AND age_years >= ?");
    add_age_clause(s, vals, &f.age_years_max, " AND age_years <= ?");
    add_cents_clause(s, vals, &f.purchase_price_min, " AND purchase_price >= ?");
    add_cents_clause(s, vals, &f.purchase_price_max, " AND purchase_price <= ?");
    add_cents_clause(s, vals, &f.estimated_value_min, " AND estimated_value >= ?");
    add_cents_clause(s, vals, &f.estimated_value_max, " AND estimated_value <= ?");
    proof {
        let c1 = clause_if(f.age_years_min is Some, " AND age_years >= ?"@);
        let c2 = clause_if(f.age_years_max is Some, " AND age_years <= ?"@);
        let c3 = clause_if(f.purchase_price_min is Some, " AND purchase_price >= ?"@);
        let c4 = clause_if(f.purchase_price_max is Some, " AND purchase_price <= ?"@);
        let c5 = clause_if(f.estimated_value_min is Some, " AND estimated_value >= ?"@);
        let c6 = clause_if(f.estimated_value_max is Some, " AND estimated_value <= ?"@);
        crate::text::lemma_cat_assoc(s0, c1, c2);
        crate::text::lemma_cat_assoc(s0, c1 + c2, c3);
        crate::text::lemma_cat_assoc(s0, c1 + c2 + c3, c4);
        crate::text::lemma_cat_assoc(s0, c1 + c2 + c3 + c4, c5);
        crate::text::lemma_cat_assoc(s0, c1 + c2 + c3 + c4 + c5, c6);
        assert(s@ == s0 + nums_sql(*f));
        let d1 = age_param(f.age_years_min);
        let d2 = age_param(f.age_years_max);
        let d3 = cents_param(f.purchase_price_min);
        let d4 = cents_param(f.purchase_price_max);
        let d5 = cents_param(f.estimated_value_min);
        let d6 = cents_param(f.estimated_value_max);
        crate::text::lemma_cat_assoc(p0, d1, d2);
        crate::text::lemma_cat_assoc(p0, d1 + d2, d3);
        crate::text::lemma_cat_assoc(p0, d1 + d2 + d3, d4);
        crate::text::lemma_cat_assoc(p0, d1 + d2 + d3 + d4, d5);
        crate::text::lemma_cat_assoc(p0, d1 + d2 + d3 + d4 + d5, d6);
        assert(vals@.map_values(|x: SqlValue| x@) == p0 + nums_params(*f));
    }
}

/// Compiles a query to its statement text and bound parameters.
pub fn compile_query(q: &StoreQuery) -> (out: (String, Vec<SqlValue>))
    ensures
        out.0@ == query_sql(*q),
        out.1@.map_values(|x: SqlValue| x@) == query_params(*q),
{
    let mut s: String =
        "SELECT id, name, description, category, action, date_added, last_updated, age_years, date_acquired, purchase_price, estimated_value, creator, working, provenance, deleted FROM items WHERE 1=1".to_owned();
    let mut vals: Vec<SqlValue> = Vec::new();
    proof {
        assert(vals@.map_values(|x: SqlValue| x@) =~= Seq::<SqlValueM>::empty());
    }
    match q {
        StoreQuery::ById(id) => {
            push_clause(&mut s, " AND id = ?");
            push_param(&mut vals, SqlValue::Int(*id));
            push_clause(&mut s, " ORDER BY id");
            proof {
                assert(vals@.map_values(|x: SqlValue| x@) =~= query_params(*q));
            }
            (s, vals)
        },
        StoreQuery::Filter(f) => {
            add_likes(&mut s, &mut vals, f);
            add_exacts(&mut s, &mut vals, f);
            add_dates(&mut s, &mut vals, f);
            add_nums(&mut s, &mut vals, f);
            push_clause(&mut s, " ORDER BY id");
            proof {
                assert(s@ =~= query_sql(*q));
                assert(vals@.map_values(|x: SqlValue| x@) =~= query_params(*q));
            }
            (s, vals)
        },
    }
}

} // verus!
