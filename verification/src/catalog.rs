//! The catalog: one connection to the store and the operations on it.
//!
//! Every operation's contract is stated over `rows()`, the table's content
//! in id order.  Reads return decoded items; writes describe the new table
//! row by row.  Listing and filtering leave soft-deleted records out unless
//! a `deleted` criterion asks for them; update operations report a missing
//! id explicitly; partial updates re-validate the merged record before
//! anything is written.

use vstd::prelude::*;
use vstd::string::*;
use crate::dates::{Date, DateM};
use crate::errors::CatalogError;
use crate::fields::{
    apply_plan, compile_updates, names_ok, spec_apply_all, spec_plan, updates_ok,
};
use crate::filter::{
    compile_query, lemma_filter_congruence, lemma_filter_elems, lemma_unconstrained_matches,
    query_admits, row_matches, StoreQuery,
};
use crate::models::{valid_item, violation_texts, Item, ItemFilter, ItemM};
use crate::row::{decode_row, encode_item, encode_row, RawRow, RowModel};
use crate::store::{ids_ascend, tbl};

verus! {

/// The items a listing shows: every non-deleted row, decoded, in id order.
pub open spec fn listed_items(rows: Seq<RowModel>) -> Seq<ItemM> {
    rows.filter(|m: RowModel| m.deleted == 0).map_values(|m: RowModel| decode_row(m))
}

/// The items a filter returns: every row the filter admits, decoded, in id
/// order.
pub open spec fn matching_items(rows: Seq<RowModel>, f: ItemFilter) -> Seq<ItemM> {
    rows.filter(|m: RowModel| row_matches(f, m)).map_values(|m: RowModel| decode_row(m))
}

/// The record a partial update leaves behind: the stored row decoded, the
/// compiled plan applied in order, and the modification date stamped.
pub open spec fn merged_item(row: RowModel, us: Seq<(String, String)>, today: DateM) -> ItemM {
    ItemM { last_updated: today, ..spec_apply_all(decode_row(row), spec_plan(us)) }
}

/// A single-connection handle on the catalog store.
pub struct Catalog {
    conn: rusqlite::Connection,
}

impl Catalog {
    /// The stored rows, in ascending id order.
    pub closed spec fn rows(&self) -> Seq<RowModel> {
        tbl(self.conn)
    }

    /// Row ids strictly ascend; constructors establish it and every
    /// operation keeps it.
    pub open spec fn wf(&self) -> bool {
        ids_ascend(self.rows())
    }

    /// Opens a fresh, empty in-memory catalog.
    pub fn open_in_memory() -> (r: Result<Catalog, CatalogError>)
        ensures
            r matches Ok(c) ==> c.wf() && c.rows() == Seq::<RowModel>::empty(),
            r matches Err(e) ==> e matches CatalogError::Storage(_),
    {
        match crate::store::open_memory() {
            Ok(conn) => {
                let mut c = Catalog { conn };
                match crate::store::create_table(&mut c.conn) {
                    Ok(()) => Ok(c),
                    Err(e) => Err(storage(e)),
                }
            },
            Err(e) => Err(storage(e)),
        }
    }

    /// Opens the catalog stored at a path, creating an empty one when none
    /// is there, and makes sure the table exists.  Whatever records the
    /// file already holds are the catalog's rows.
    pub fn open(path: &str) -> (r: Result<Catalog, CatalogError>)
        ensures
            r matches Ok(c) ==> c.wf(),
            r matches Err(e) ==> e matches CatalogError::Storage(_),
    {
        match crate::store::open_at(path) {
            Ok(conn) => {
                let mut c = Catalog { conn };
                match crate::store::create_table(&mut c.conn) {
                    Ok(()) => Ok(c),
                    Err(e) => Err(storage(e)),
                }
            },
            Err(e) => Err(storage(e)),
        }
    }

    /// Makes sure the table exists; safe to run at every startup, and a
    /// no-op when it already does.
    pub fn init_db(&mut self) -> (r: Result<(), CatalogError>)
        ensures
            final(self).rows() == old(self).rows(),
            r is Ok ==> final(self).wf(),
            r matches Err(e) ==> e matches CatalogError::Storage(_),
    {
        match crate::store::create_table(&mut self.conn) {
            Ok(()) => Ok(()),
            Err(e) => Err(storage(e)),
        }
    }

    /// Lists every record that is not soft-deleted, in id order.
    pub fn get_all_items(&self) -> (r: Result<Vec<Item>, CatalogError>)
        ensures
            r matches Ok(v) ==> v@.map_values(|i: Item| i@) == listed_items(self.rows()),
            r matches Err(e) ==> e matches CatalogError::Storage(_),
    {
        let q = StoreQuery::Filter(ItemFilter::default());
        let (sql, ps) = compile_query(&q);
        match crate::store::run_query(&self.conn, &q, sql.as_str(), &ps) {
            Ok(raw) => {
                let out = decode_rows(raw);
                proof {
                    let qq = q;
                    if let StoreQuery::Filter(f0) = qq {
                        assert forall|m: RowModel|
                            #[trigger] query_admits(qq, m) == (m.deleted == 0) by {
                            lemma_unconstrained_matches(f0, m);
                        }
                        lemma_filter_congruence(
                            self.rows(),
                            |m: RowModel| query_admits(qq, m),
                            |m: RowModel| m.deleted == 0,
                        );
                    }
                }
                Ok(out)
            },
            Err(e) => Err(storage(e)),
        }
    }

    /// Returns every record the filter admits, in id order.  Soft-deleted
    /// records appear only when the filter's `deleted` criterion asks for
    /// them.
    pub fn get_filtered_items(&self, filter: ItemFilter) -> (r: Result<Vec<Item>, CatalogError>)
        ensures
            r matches Ok(v) ==> v@.map_values(|i: Item| i@) == matching_items(self.rows(), filter),
            r matches Err(e) ==> e matches CatalogError::Storage(_),
    {
        let q = StoreQuery::Filter(filter);
        let (sql, ps) = compile_query(&q);
        match crate::store::run_query(&self.conn, &q, sql.as_str(), &ps) {
            Ok(raw) => {
                proof {
                    let qq = q;
                    lemma_filter_congruence(
                        self.rows(),
                        |m: RowModel| query_admits(qq, m),
                        |m: RowModel| row_matches(filter, m),
                    );
                }
                Ok(decode_rows(raw))
            },
            Err(e) => Err(storage(e)),
        }
    }

    /// Fetches one record by id, soft-deleted or not: `Some` exactly when a
    /// row carries the id.
    pub fn get_item_by_id(&self, id: i64) -> (r: Result<Option<Item>, CatalogError>)
        ensures
            r matches Ok(Some(it)) ==> self.rows().contains(
                self.rows().filter(|m: RowModel| m.id == id as int)[0],
            ) && it@ == decode_row(self.rows().filter(|m: RowModel| m.id == id as int)[0])
                && self.rows().filter(|m: RowModel| m.id == id as int)[0].id == id as int,
            r matches Ok(opt) ==> (opt is Some) == exists|j: int|
                0 <= j < self.rows().len() && (#[trigger] self.rows()[j]).id == id as int,
            r matches Err(e) ==> e matches CatalogError::Storage(_),
    {
        let q = StoreQuery::ById(id);
        let (sql, ps) = compile_query(&q);
        match crate::store::run_query(&self.conn, &q, sql.as_str(), &ps) {
            Ok(mut raw) => {
                proof {
                    let pred = |m: RowModel| m.id == id as int;
                    let qq = q;
                    lemma_filter_congruence(
                        self.rows(),
                        |m: RowModel| query_admits(qq, m),
                        pred,
                    );
                    lemma_filter_elems(self.rows(), pred);
                    let hits = self.rows().filter(pred);
                    if hits.len() > 0 {
                        self.rows().lemma_filter_pred(pred, 0);
                    }
                    assert forall|j: int|
                        0 <= j < self.rows().len() && (#[trigger] self.rows()[j]).id
                            == id as int implies hits.len() > 0 by {
                        self.rows().lemma_filter_contains(pred, j);
                    }
                }
                if raw.len() == 0 {
                    Ok(None)
                } else {
                    let ghost rm = raw@.map_values(|x: RawRow| x@);
                    let first = raw.remove(0);
                    proof {
                        assert(first@ == rm[0]);
                    }
                    Ok(Some(Item::from_row(&first)))
                }
            },
            Err(e) => Err(storage(e)),
        }
    }

    /// Validates the item and, when it passes, stores it under a fresh id,
    /// larger than every id the table has held.  The given `id` field plays
    /// no part; the assigned id comes back.  A rejected item is reported
    /// with every violation and nothing is written.
    pub fn add_item(&mut self, item: &Item) -> (r: Result<i64, CatalogError>)
        requires
            old(self).wf(),
        ensures
            final(self).wf(),
            r matches Ok(id) ==> valid_item(item@) && (forall|j: int|
                0 <= j < old(self).rows().len() ==> (#[trigger] old(self).rows()[j].id)
                    < id as int) && final(self).rows() == old(self).rows().push(
                encode_item(item@, id as int),
            ),
            (r matches Err(CatalogError::Validation(_))) == !valid_item(item@),
            r matches Err(CatalogError::Validation(v)) ==> v@.map_values(|s: String| s@)
                == violation_texts(item@) && final(self).rows() == old(self).rows(),
            r is Err ==> (r matches Err(CatalogError::Validation(_)) || r matches Err(
                CatalogError::Storage(_),
            )) && final(self).rows() == old(self).rows(),
    {
        match item.validate() {
            Err(v) => Err(CatalogError::Validation(v)),
            Ok(()) => {
                let row = encode_row(item, 0);
                match crate::store::insert_row(&mut self.conn, &row) {
                    Ok(id) => {
                        proof {
                            assert(RowModel { id: id as int, ..row@ } == encode_item(
                                item@,
                                id as int,
                            ));
                            let newrows = old(self).rows().push(encode_item(item@, id as int));
                            assert forall|i: int, j: int|
                                0 <= i < j < newrows.len() implies newrows[i].id
                                < newrows[j].id by {
                                if j < newrows.len() - 1 {
                                    assert(old(self).rows()[i].id < old(self).rows()[j].id);
                                }
                            }
                        }
                        Ok(id)
                    },
                    Err(e) => Err(storage(e)),
                }
            },
        }
    }
}

impl Catalog {
    /// Validates the item and, when it passes, replaces the whole stored
    /// record under `item.id` with it in one statement, stamping `today`
    /// as the modification date.  An id no row carries is reported as not
    /// found; a rejected item is reported with every violation; in both
    /// cases nothing is written.
    pub fn update_item_on(&mut self, item: &Item, today: &Date) -> (r: Result<(), CatalogError>)
        requires
            old(self).wf(),
        ensures
            final(self).wf(),
            r is Ok ==> valid_item(item@) && final(self).rows().len() == old(self).rows().len()
                && (forall|j: int|
                0 <= j < old(self).rows().len() ==> (#[trigger] final(self).rows()[j]) == (if old(
                    self,
                ).rows()[j].id == item@.id {
                    encode_item(ItemM { last_updated: today@, ..item@ }, item@.id)
                } else {
                    old(self).rows()[j]
                })) && (exists|j: int|
                0 <= j < old(self).rows().len() && (#[trigger] old(self).rows()[j]).id
                    == item@.id),
            (r matches Err(CatalogError::Validation(_))) == !valid_item(item@),
            r matches Err(CatalogError::Validation(v)) ==> v@.map_values(|s: String| s@)
                == violation_texts(item@),
            r matches Err(CatalogError::NotFound(i)) ==> i == item.id && valid_item(item@) && (
            forall|j: int|
                0 <= j < old(self).rows().len() ==> (#[trigger] old(self).rows()[j]).id
                    != item@.id),
            r is Err ==> final(self).rows() == old(self).rows() && (r matches Err(
                CatalogError::Validation(_),
            ) || r matches Err(CatalogError::NotFound(_)) || r matches Err(
                CatalogError::Storage(_),
            )),
            valid_item(item@) && (exists|j: int|
                0 <= j < old(self).rows().len() && (#[trigger] old(self).rows()[j]).id
                    == item@.id) ==> (r is Ok || r matches Err(CatalogError::Storage(_))),
    {
        match item.validate() {
            Err(v) => Err(CatalogError::Validation(v)),
            Ok(()) => {
                let mut stamped = item.clone_record();
                stamped.last_updated = *today;
                let row = encode_row(&stamped, item.id);
                match crate::store::update_row(&mut self.conn, &row) {
                    Ok(n) => {
                        proof {
                            let newrows = final(self).rows();
                            assert forall|i: int, j: int|
                                0 <= i < j < newrows.len() implies newrows[i].id
                                < newrows[j].id by {
                                assert(old(self).rows()[i].id < old(self).rows()[j].id);
                            }
                        }
                        if n == 0 {
                            proof {
                                assert(final(self).rows() =~= old(self).rows());
                            }
                            Err(CatalogError::NotFound(item.id))
                        } else {
                            Ok(())
                        }
                    },
                    Err(e) => Err(storage(e)),
                }
            },
        }
    }

    /// Replaces the whole stored record under `item.id`, stamping today's
    /// date from the machine clock; otherwise exactly `update_item_on`.
    pub fn update_item(&mut self, item: &Item) -> (r: Result<(), CatalogError>)
        requires
            old(self).wf(),
        ensures
            final(self).wf(),
            r is Ok ==> valid_item(item@) && final(self).rows().len() == old(self).rows().len()
                && (exists|j: int|
                0 <= j < old(self).rows().len() && (#[trigger] old(self).rows()[j]).id
                    == item@.id) && exists|today: DateM|
                crate::dates::valid_dm(today) && (forall|j: int|
                    0 <= j < old(self).rows().len() ==> (#[trigger] final(self).rows()[j]) == (
                    if old(self).rows()[j].id == item@.id {
                        encode_item(ItemM { last_updated: today, ..item@ }, item@.id)
                    } else {
                        old(self).rows()[j]
                    })),
            (r matches Err(CatalogError::Validation(_))) == !valid_item(item@),
            r matches Err(CatalogError::Validation(v)) ==> v@.map_values(|s: String| s@)
                == violation_texts(item@),
            r matches Err(CatalogError::NotFound(i)) ==> i == item.id && valid_item(item@) && (
            forall|j: int|
                0 <= j < old(self).rows().len() ==> (#[trigger] old(self).rows()[j]).id
                    != item@.id),
            r is Err ==> final(self).rows() == old(self).rows(),
            valid_item(item@) && (exists|j: int|
                0 <= j < old(self).rows().len() && (#[trigger] old(self).rows()[j]).id
                    == item@.id) ==> (r is Ok || r matches Err(CatalogError::Storage(_))),
    {
        let today = today_date();
        proof {
            use_type_invariant(&today);
        }
        self.update_item_on(item, &today)
    }
}

/// Whether a merged record passes validation does not depend on the
/// stamped date: the rules never look at the modification date.
pub proof fn lemma_merged_validity_date_free(
    row: RowModel,
    us: Seq<(String, String)>,
    d1: DateM,
    d2: DateM,
)
    ensures
        valid_item(merged_item(row, us, d1)) == valid_item(merged_item(row, us, d2)),
{
}

/// The record a soft deletion leaves behind: the stored row decoded, its
/// deleted flag set, and the modification date stamped.
pub open spec fn deleted_item(row: RowModel, today: DateM) -> ItemM {
    ItemM { deleted: true, last_updated: today, ..decode_row(row) }
}

impl Catalog {
    /// Applies a sparse field-name/value request to the record under `id`,
    /// taking `today` as the modification date.  Every name is resolved and
    /// every value coerced before anything happens; the merged record is
    /// re-validated and then written back whole, in one statement under the
    /// id; a missing id is reported.  On any failure nothing is written.
    pub fn update_item_fields_on(
        &mut self,
        id: i64,
        updates: &Vec<(String, String)>,
        today: &Date,
    ) -> (r: Result<(), CatalogError>)
        requires
            old(self).wf(),
        ensures
            final(self).wf(),
            r is Ok ==> updates_ok(updates@) && (exists|j: int|
                0 <= j < old(self).rows().len() && (#[trigger] old(self).rows()[j]).id
                    == id as int) && final(self).rows().len() == old(self).rows().len() && (forall|
                j: int,
            |
                0 <= j < old(self).rows().len() ==> (#[trigger] final(self).rows()[j]) == (if old(
                    self,
                ).rows()[j].id == id as int {
                    encode_item(merged_item(old(self).rows()[j], updates@, today@), id as int)
                } else {
                    old(self).rows()[j]
                })) && (forall|j: int|
                0 <= j < old(self).rows().len() && (#[trigger] old(self).rows()[j]).id
                    == id as int ==> valid_item(
                    merged_item(old(self).rows()[j], updates@, today@),
                )),
            r matches Err(CatalogError::UnknownField(n)) ==> !updates_ok(updates@) && exists|
                k: int,
            |
                0 <= k < updates@.len() && crate::fields::spec_resolve(
                    (#[trigger] updates@[k]).0@,
                ) is None && n@ == updates@[k].0@,
            r matches Err(CatalogError::Coercion { field, value }) ==> names_ok(updates@)
                && !updates_ok(updates@) && exists|k: int|
                0 <= k < updates@.len() && crate::fields::spec_coerce(
                    crate::fields::spec_resolve((#[trigger] updates@[k]).0@).unwrap(),
                    updates@[k].1@,
                ) is None && field@ == updates@[k].0@ && value@ == updates@[k].1@,
            r matches Err(CatalogError::NotFound(i)) ==> updates_ok(updates@) && i == id && (
            forall|j: int|
                0 <= j < old(self).rows().len() ==> (#[trigger] old(self).rows()[j]).id
                    != id as int),
            r matches Err(CatalogError::Validation(v)) ==> updates_ok(updates@) && exists|j: int|
                0 <= j < old(self).rows().len() && (#[trigger] old(self).rows()[j]).id == id as int
                    && !valid_item(merged_item(old(self).rows()[j], updates@, today@))
                    && v@.map_values(|s: String| s@) == violation_texts(
                    merged_item(old(self).rows()[j], updates@, today@),
                ),
            r is Err ==> final(self).rows() == old(self).rows(),
            updates_ok(updates@) && (exists|j: int|
                0 <= j < old(self).rows().len() && (#[trigger] old(self).rows()[j]).id
                    == id as int) && (forall|j: int|
                0 <= j < old(self).rows().len() && (#[trigger] old(self).rows()[j]).id
                    == id as int ==> valid_item(
                    merged_item(old(self).rows()[j], updates@, today@),
                )) ==> (r is Ok || r matches Err(CatalogError::Storage(_))),
    {
        let plan = match compile_updates(updates) {
            Ok(p) => p,
            Err(e) => {
                return Err(e);
            },
        };
        let q = StoreQuery::ById(id);
        let (sql, ps) = compile_query(&q);
        let raw = match crate::store::run_query(&self.conn, &q, sql.as_str(), &ps) {
            Ok(v) => v,
            Err(e) => {
                return Err(storage(e));
            },
        };
        let ghost pred = |m: RowModel| m.id == id as int;
        let ghost qq = q;
        proof {
            lemma_filter_congruence(old(self).rows(), |m: RowModel| query_admits(qq, m), pred);
            lemma_filter_elems(old(self).rows(), pred);
        }
        let ghost hits = old(self).rows().filter(pred);
        if raw.len() == 0 {
            proof {
                assert forall|j: int|
                    0 <= j < old(self).rows().len() implies (#[trigger] old(self).rows()[j]).id
                    != id as int by {
                    if old(self).rows()[j].id == id as int {
                        old(self).rows().lemma_filter_contains(pred, j);
                    }
                }
            }
            return Err(CatalogError::NotFound(id));
        }
        proof {
            old(self).rows().lemma_filter_pred(pred, 0);
            assert(old(self).rows().contains(hits[0]));
        }
        let ghost jrow = choose|j: int|
            0 <= j < old(self).rows().len() && old(self).rows()[j] == hits[0];
        let base = Item::from_row(&raw[0]);
        let mut merged = apply_plan(base, &plan);
        merged.last_updated = *today;
        proof {
            assert(raw@.map_values(|x: RawRow| x@)[0] == hits[0]);
            assert(merged@ == merged_item(old(self).rows()[jrow], updates@, today@));
            assert forall|j: int|
                0 <= j < old(self).rows().len() && (#[trigger] old(self).rows()[j]).id
                    == id as int implies old(self).rows()[j] == old(self).rows()[jrow] by {
                if j < jrow {
                    assert(old(self).rows()[j].id < old(self).rows()[jrow].id);
                } else if j > jrow {
                    assert(old(self).rows()[jrow].id < old(self).rows()[j].id);
                }
            }
        }
        match merged.validate() {
            Err(v) => {
                return Err(CatalogError::Validation(v));
            },
            Ok(()) => {},
        }
        let row = encode_row(&merged, id);
        match crate::store::update_row(&mut self.conn, &row) {
            Ok(_n) => {
                proof {
                    let newrows = final(self).rows();
                    assert forall|i: int, j: int|
                        0 <= i < j < newrows.len() implies newrows[i].id < newrows[j].id by {
                        assert(old(self).rows()[i].id < old(self).rows()[j].id);
                    }
                }
                Ok(())
            },
            Err(e) => Err(storage(e)),
        }
    }

    /// Applies a sparse field-name/value request to the record under `id`,
    /// stamping today's date from the machine clock; otherwise exactly
    /// `update_item_fields_on`.
    pub fn update_item_fields(&mut self, id: i64, updates: &Vec<(String, String)>) -> (r: Result<
        (),
        CatalogError,
    >)
        requires
            old(self).wf(),
        ensures
            final(self).wf(),
            r is Ok ==> updates_ok(updates@) && (exists|j: int|
                0 <= j < old(self).rows().len() && (#[trigger] old(self).rows()[j]).id
                    == id as int) && final(self).rows().len() == old(self).rows().len() && exists|
                today: DateM,
            |
                crate::dates::valid_dm(today) && (forall|j: int|
                    0 <= j < old(self).rows().len() ==> (#[trigger] final(self).rows()[j]) == (
                    if old(self).rows()[j].id == id as int {
                        encode_item(merged_item(old(self).rows()[j], updates@, today), id as int)
                    } else {
                        old(self).rows()[j]
                    })),
            r matches Err(CatalogError::UnknownField(n)) ==> !updates_ok(updates@) && exists|
                k: int,
            |
                0 <= k < updates@.len() && crate::fields::spec_resolve(
                    (#[trigger] updates@[k]).0@,
                ) is None && n@ == updates@[k].0@,
            r matches Err(CatalogError::Coercion { field, value }) ==> names_ok(updates@)
                && !updates_ok(updates@) && exists|k: int|
                0 <= k < updates@.len() && crate::fields::spec_coerce(
                    crate::fields::spec_resolve((#[trigger] updates@[k]).0@).unwrap(),
                    updates@[k].1@,
                ) is None && field@ == updates@[k].0@ && value@ == updates@[k].1@,
            r matches Err(CatalogError::NotFound(i)) ==> updates_ok(updates@) && i == id && (
            forall|j: int|
                0 <= j < old(self).rows().len() ==> (#[trigger] old(self).rows()[j]).id
                    != id as int),
            r matches Err(CatalogError::Validation(_)) ==> updates_ok(updates@) && exists|j: int|
                0 <= j < old(self).rows().len() && (#[trigger] old(self).rows()[j]).id == id as int
                    && (forall|d: DateM|
                    crate::dates::valid_dm(d) ==> !valid_item(
                        #[trigger] merged_item(old(self).rows()[j], updates@, d),
                    )),
            r is Err ==> final(self).rows() == old(self).rows(),
            updates_ok(updates@) && (exists|j: int|
                0 <= j < old(self).rows().len() && (#[trigger] old(self).rows()[j]).id
                    == id as int) && (forall|j: int, d: DateM|
                0 <= j < old(self).rows().len() && (#[trigger] old(self).rows()[j]).id == id as int
                    && crate::dates::valid_dm(d) ==> valid_item(
                    #[trigger] merged_item(old(self).rows()[j], updates@, d),
                )) ==> (r is Ok || r matches Err(CatalogError::Storage(_))),
    {
        let today = today_date();
        proof {
            use_type_invariant(&today);
        }
        let r = self.update_item_fields_on(id, updates, &today);
        proof {
            if let Err(CatalogError::Validation(_)) = r {
                let j = choose|j: int|
                    0 <= j < old(self).rows().len() && (#[trigger] old(self).rows()[j]).id
                        == id as int && !valid_item(
                        merged_item(old(self).rows()[j], updates@, today@),
                    );
                assert forall|d: DateM|
                    crate::dates::valid_dm(d) implies !valid_item(
                    #[trigger] merged_item(old(self).rows()[j], updates@, d),
                ) by {
                    lemma_merged_validity_date_free(old(self).rows()[j], updates@, d, today@);
                }
            }
        }
        r
    }

    /// Marks the record under `id` deleted and stamps `today` as its
    /// modification date; every other field keeps its stored value.  The
    /// record stays in the table and direct lookup still finds it.  An id
    /// no row carries is reported as not found and nothing is written.
    pub fn soft_delete_item_on(&mut self, id: i64, today: &Date) -> (r: Result<(), CatalogError>)
        requires
            old(self).wf(),
        ensures
            final(self).wf(),
            r is Ok ==> (exists|j: int|
                0 <= j < old(self).rows().len() && (#[trigger] old(self).rows()[j]).id
                    == id as int) && final(self).rows().len() == old(self).rows().len() && (forall|
                j: int,
            |
                0 <= j < old(self).rows().len() ==> (#[trigger] final(self).rows()[j]) == (if old(
                    self,
                ).rows()[j].id == id as int {
                    encode_item(deleted_item(old(self).rows()[j], today@), id as int)
                } else {
                    old(self).rows()[j]
                })),
            r matches Err(CatalogError::NotFound(i)) ==> i == id && (forall|j: int|
                0 <= j < old(self).rows().len() ==> (#[trigger] old(self).rows()[j]).id
                    != id as int),
            r is Err ==> final(self).rows() == old(self).rows() && (r matches Err(
                CatalogError::NotFound(_),
            ) || r matches Err(CatalogError::Storage(_))),
            (exists|j: int|
                0 <= j < old(self).rows().len() && (#[trigger] old(self).rows()[j]).id
                    == id as int) ==> (r is Ok || r matches Err(CatalogError::Storage(_))),
    {
        let q = StoreQuery::ById(id);
        let (sql, ps) = compile_query(&q);
        let raw = match crate::store::run_query(&self.conn, &q, sql.as_str(), &ps) {
            Ok(v) => v,
            Err(e) => {
                return Err(storage(e));
            },
        };
        let ghost pred = |m: RowModel| m.id == id as int;
        let ghost qq = q;
        proof {
            lemma_filter_congruence(old(self).rows(), |m: RowModel| query_admits(qq, m), pred);
            lemma_filter_elems(old(self).rows(), pred);
        }
        let ghost hits = old(self).rows().filter(pred);
        if raw.len() == 0 {
            proof {
                assert forall|j: int|
                    0 <= j < old(self).rows().len() implies (#[trigger] old(self).rows()[j]).id
                    != id as int by {
                    if old(self).rows()[j].id == id as int {
                        old(self).rows().lemma_filter_contains(pred, j);
                    }
                }
            }
            return Err(CatalogError::NotFound(id));
        }
        proof {
            old(self).rows().lemma_filter_pred(pred, 0);
            assert(old(self).rows().contains(hits[0]));
        }
        let ghost jrow = choose|j: int|
            0 <= j < old(self).rows().len() && old(self).rows()[j] == hits[0];
        let mut it = Item::from_row(&raw[0]);
        it.deleted = true;
        it.last_updated = *today;
        proof {
            assert(raw@.map_values(|x: RawRow| x@)[0] == hits[0]);
            assert(it@ == deleted_item(old(self).rows()[jrow], today@));
            assert forall|j: int|
                0 <= j < old(self).rows().len() && (#[trigger] old(self).rows()[j]).id
                    == id as int implies old(self).rows()[j] == old(self).rows()[jrow] by {
                if j < jrow {
                    assert(old(self).rows()[j].id < old(self).rows()[jrow].id);
                } else if j > jrow {
                    assert(old(self).rows()[jrow].id < old(self).rows()[j].id);
                }
            }
        }
        let row = encode_row(&it, id);
        match crate::store::update_row(&mut self.conn, &row) {
            Ok(_n) => {
                proof {
                    let newrows = final(self).rows();
                    assert forall|i: int, j: int|
                        0 <= i < j < newrows.len() implies newrows[i].id < newrows[j].id by {
                        assert(old(self).rows()[i].id < old(self).rows()[j].id);
                    }
                }
                Ok(())
            },
            Err(e) => Err(storage(e)),
        }
    }

    /// Marks the record under `id` deleted, stamping today's date from the
    /// machine clock; otherwise exactly `soft_delete_item_on`.
    pub fn soft_delete_item(&mut self, id: i64) -> (r: Result<(), CatalogError>)
        requires
            old(self).wf(),
        ensures
            final(self).wf(),
            r is Ok ==> (exists|j: int|
                0 <= j < old(self).rows().len() && (#[trigger] old(self).rows()[j]).id
                    == id as int) && final(self).rows().len() == old(self).rows().len() && exists|
                today: DateM,
            |
                crate::dates::valid_dm(today) && (forall|j: int|
                    0 <= j < old(self).rows().len() ==> (#[trigger] final(self).rows()[j]) == (
                    if old(self).rows()[j].id == id as int {
                        encode_item(deleted_item(old(self).rows()[j], today), id as int)
                    } else {
                        old(self).rows()[j]
                    })),
            r matches Err(CatalogError::NotFound(i)) ==> i == id && (forall|j: int|
                0 <= j < old(self).rows().len() ==> (#[trigger] old(self).rows()[j]).id
                    != id as int),
            r is Err ==> final(self).rows() == old(self).rows(),
            (exists|j: int|
                0 <= j < old(self).rows().len() && (#[trigger] old(self).rows()[j]).id
                    == id as int) ==> (r is Ok || r matches Err(CatalogError::Storage(_))),
    {
        let today = today_date();
        proof {
            use_type_invariant(&today);
        }
        self.soft_delete_item_on(id, &today)
    }
}

/// Wraps an engine failure as the library's storage error.
fn storage(e: rusqlite::Error) -> (r: CatalogError)
    ensures
        r matches CatalogError::Storage(_),
{
    CatalogError::Storage(crate::store::err_text(&e))
}

/// Decodes a batch of fetched rows, in order.
fn decode_rows(raw: Vec<RawRow>) -> (out: Vec<Item>)
    ensures
        out@.map_values(|i: Item| i@) == raw@.map_values(|x: RawRow| x@).map_values(
            |m: RowModel| decode_row(m),
        ),
{
    let mut out: Vec<Item> = Vec::new();
    let mut k: usize = 0;
    proof {
        assert(out@.map_values(|i: Item| i@) =~= raw@.map_values(|x: RawRow| x@).map_values(
            |m: RowModel| decode_row(m),
        ).subrange(0, 0));
    }
    while k < raw.len()
        invariant
            k <= raw.len(),
            out@.map_values(|i: Item| i@) == raw@.map_values(|x: RawRow| x@).map_values(
                |m: RowModel| decode_row(m),
            ).subrange(0, k as int),
        decreases raw.len() - k,
    {
        let ghost before = out@.map_values(|i: Item| i@);
        let it = Item::from_row(&raw[k]);
        out.push(it);
        proof {
            let target = raw@.map_values(|x: RawRow| x@).map_values(|m: RowModel| decode_row(m));
            assert(out@.map_values(|i: Item| i@) =~= before.push(it@));
            assert(target.subrange(0, (k + 1) as int) =~= target.subrange(0, k as int).push(
                target[k as int],
            ));
        }
        k = k + 1;
    }
    proof {
        let target = raw@.map_values(|x: RawRow| x@).map_values(|m: RowModel| decode_row(m));
        assert(target.subrange(0, target.len() as int) =~= target);
    }
    out
}

/// Inserting a record and looking its assigned id up gives the record
/// back: the fetched row is the encoded item, and decoding it restores
/// every field, with the id the store assigned.
pub proof fn lemma_insert_then_get(rows: Seq<RowModel>, i: ItemM, id: int)
    requires
        ids_ascend(rows),
        forall|j: int| 0 <= j < rows.len() ==> (#[trigger] rows[j]).id < id,
        crate::row::storable(i),
    ensures
        ({
            let rows2 = rows.push(encode_item(i, id));
            let hits = rows2.filter(|m: RowModel| m.id == id);
            hits.len() == 1 && decode_row(hits[0]) == (ItemM { id: id, ..i })
        }),
{
    let enc = encode_item(i, id);
    let rows2 = rows.push(enc);
    let pred = |m: RowModel| m.id == id;
    assert(rows2 =~= rows + seq![enc]);
    Seq::filter_distributes_over_add(rows, seq![enc], pred);
    rows.lemma_all_neg_filter_empty(pred);
    assert(seq![enc].filter(pred) =~= seq![enc]) by {
        reveal(Seq::filter);
        assert(seq![enc].drop_last() =~= Seq::<RowModel>::empty());
    }
    assert(rows2.filter(pred) =~= seq![enc]);
    crate::row::lemma_row_roundtrip(i, id);
}

/// The empty filter and the plain listing agree: both return exactly the
/// records whose deleted flag is clear.
pub proof fn lemma_list_is_unfiltered(rows: Seq<RowModel>, f: ItemFilter)
    requires
        crate::models::unconstrained(f),
    ensures
        matching_items(rows, f) == listed_items(rows),
{
    assert forall|m: RowModel| #[trigger] row_matches(f, m) == (m.deleted == 0) by {
        lemma_unconstrained_matches(f, m);
    }
    lemma_filter_congruence(rows, |m: RowModel| row_matches(f, m), |m: RowModel| m.deleted == 0);
}

/// A partial update touches nothing beyond what it names: apart from the
/// stamped modification date, the merged record agrees with the stored one
/// on every field outside the request.
pub proof fn lemma_partial_update_frame(row: RowModel, us: Seq<(String, String)>, today: DateM)
    ensures
        merged_item(row, us, today).last_updated == today,
        crate::fields::agree_off(
            decode_row(row),
            ItemM { last_updated: decode_row(row).last_updated, ..merged_item(row, us, today) },
            crate::fields::touched_fields(spec_plan(us)),
        ),
{
    crate::fields::lemma_apply_frame(decode_row(row), spec_plan(us));
}

/// A soft-deleted record never shows up in the listing: after the deletion
/// is written, no listed item carries its id.
pub proof fn lemma_soft_deleted_hidden(rows: Seq<RowModel>, today: DateM, j: int)
    requires
        ids_ascend(rows),
        0 <= j < rows.len(),
    ensures
        ({
            let rows2 = rows.update(j, encode_item(deleted_item(rows[j], today), rows[j].id));
            forall|k: int|
                0 <= k < listed_items(rows2).len() ==> (#[trigger] listed_items(rows2)[k]).id
                    != rows[j].id
        }),
{
    let dead = encode_item(deleted_item(rows[j], today), rows[j].id);
    let rows2 = rows.update(j, dead);
    let pred = |m: RowModel| m.deleted == 0;
    let hits = rows2.filter(pred);
    lemma_filter_elems(rows2, pred);
    assert forall|k: int|
        0 <= k < listed_items(rows2).len() implies (#[trigger] listed_items(rows2)[k]).id
        != rows[j].id by {
        rows2.lemma_filter_pred(pred, k);
        assert(rows2.contains(hits[k]));
        let t = choose|t: int| 0 <= t < rows2.len() && rows2[t] == hits[k];
        assert(hits[k].deleted == 0);
        assert(t != j);
        assert(rows2[t] == rows[t]);
        if rows[t].id == rows[j].id {
            if t < j {
                assert(rows[t].id < rows[j].id);
            } else {
                assert(rows[j].id < rows[t].id);
            }
        }
        assert(listed_items(rows2)[k] == decode_row(hits[k]));
    }
}

/// Soft deletion keeps the record readable: the row it writes decodes to
/// the stored record with only the deleted flag set and the modification
/// date stamped, under its own id.
pub proof fn lemma_soft_delete_roundtrip(row: RowModel, today: DateM, id: int)
    requires
        crate::dates::valid_dm(today),
    ensures
        decode_row(encode_item(deleted_item(row, today), id)) == (ItemM {
            id: id,
            ..deleted_item(row, today)
        }),
{
    crate::row::lemma_decode_storable(row);
    crate::row::lemma_row_roundtrip(deleted_item(row, today), id);
}

/// Reads the machine's clock as a library date; an unrepresentable year
/// falls back to the fallback date.
fn today_date() -> (d: Date) {
    let (y, m, dd) = crate::store::today_parts();
    if 1 <= y && y <= 9999 {
        match Date::new(y as u16, m as u8, dd as u8) {
            Some(d) => d,
            None => Date::fallback(),
        }
    } else {
        Date::fallback()
    }
}

} // verus!

