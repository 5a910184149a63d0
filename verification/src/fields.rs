//! The partial-update coercion engine.
//!
//! A caller hands over pairs of field name and raw text.  Compilation
//! resolves every name against the closed field table and coerces every
//! value into its field's type before anything else happens: an unknown
//! name fails the whole request first, then a value that will not coerce,
//! so a failed request never produces a plan.  Writing to an optional
//! field always sets it: no raw value stands for absence.  Applying a plan rewrites
//! exactly the named fields of a record, in order, and nothing else.

use vstd::prelude::*;
use vstd::string::*;
use crate::dates::{parse_date_text, Date, DateM};
use crate::errors::CatalogError;
use crate::models::{Item, ItemAction, ItemCategory, ItemM};
use crate::money::parse_cents_text;
use crate::text::{all_digits, dec_value, str_eq};

verus! {

/// The columns a partial update may name.  `id` is never updatable and
/// `last_updated` is stamped by the engine itself, so neither appears.
#[derive(Clone, Copy, Debug, PartialEq, Eq, Structural)]
pub enum Field {
    Name,
    Description,
    Category,
    Action,
    DateAdded,
    AgeYears,
    DateAcquired,
    PurchasePrice,
    EstimatedValue,
    Creator,
    Working,
    Provenance,
    Deleted,
}

/// One coerced update: a field together with its typed new value.
#[derive(Clone, Debug)]
pub enum FieldUpdate {
    Name(String),
    Description(String),
    Category(ItemCategory),
    Action(ItemAction),
    DateAdded(Date),
    AgeYears(u32),
    DateAcquired(Date),
    PurchasePrice(i64),
    EstimatedValue(i64),
    Creator(String),
    Working(bool),
    Provenance(String),
    Deleted(bool),
}

/// Mathematical value of one coerced update.
pub enum UpdM {
    Name(Seq<char>),
    Description(Seq<char>),
    Category(ItemCategory),
    Action(ItemAction),
    DateAdded(DateM),
    AgeYears(int),
    DateAcquired(DateM),
    PurchasePrice(int),
    EstimatedValue(int),
    Creator(Seq<char>),
    Working(bool),
    Provenance(Seq<char>),
    Deleted(bool),
}

impl View for FieldUpdate {
    type V = UpdM;

    open spec fn view(&self) -> UpdM {
        match self {
            FieldUpdate::Name(s) => UpdM::Name(s@),
            FieldUpdate::Description(s) => UpdM::Description(s@),
            FieldUpdate::Category(c) => UpdM::Category(*c),
            FieldUpdate::Action(a) => UpdM::Action(*a),
            FieldUpdate::DateAdded(d) => UpdM::DateAdded(d@),
            FieldUpdate::AgeYears(a) => UpdM::AgeYears(*a as int),
            FieldUpdate::DateAcquired(d) => UpdM::DateAcquired(d@),
            FieldUpdate::PurchasePrice(p) => UpdM::PurchasePrice(*p as int),
            FieldUpdate::EstimatedValue(v) => UpdM::EstimatedValue(*v as int),
            FieldUpdate::Creator(s) => UpdM::Creator(s@),
            FieldUpdate::Working(b) => UpdM::Working(*b),
            FieldUpdate::Provenance(s) => UpdM::Provenance(s@),
            FieldUpdate::Deleted(b) => UpdM::Deleted(*b),
        }
    }
}

/// The field an update writes.
pub open spec fn touches(u: UpdM) -> Field {
    match u {
        UpdM::Name(_) => Field::Name,
        UpdM::Description(_) => Field::Description,
        UpdM::Category(_) => Field::Category,
        UpdM::Action(_) => Field::Action,
        UpdM::DateAdded(_) => Field::DateAdded,
        UpdM::AgeYears(_) => Field::AgeYears,
        UpdM::DateAcquired(_) => Field::DateAcquired,
        UpdM::PurchasePrice(_) => Field::PurchasePrice,
        UpdM::EstimatedValue(_) => Field::EstimatedValue,
        UpdM::Creator(_) => Field::Creator,
        UpdM::Working(_) => Field::Working,
        UpdM::Provenance(_) => Field::Provenance,
        UpdM::Deleted(_) => Field::Deleted,
    }
}

/// The closed table from column name to field.
pub open spec fn spec_resolve(s: Seq<char>) -> Option<Field> {
    if s == "name"@ {
        Some(Field::Name)
    } else if s == "description"@ {
        Some(Field::Description)
    } else if s == "category"@ {
        Some(Field::Category)
    } else if s == "action"@ {
        Some(Field::Action)
    } else if s == "date_added"@ {
        Some(Field::DateAdded)
    } else if s == "age_years"@ {
        Some(Field::AgeYears)
    } else if s == "date_acquired"@ {
        Some(Field::DateAcquired)
    } else if s == "purchase_price"@ {
        Some(Field::PurchasePrice)
    } else if s == "estimated_value"@ {
        Some(Field::EstimatedValue)
    } else if s == "creator"@ {
        Some(Field::Creator)
    } else if s == "working"@ {
        Some(Field::Working)
    } else if s == "provenance"@ {
        Some(Field::Provenance)
    } else if s == "deleted"@ {
        Some(Field::Deleted)
    } else {
        None
    }
}

/// An age is one to nine decimal digits.
pub open spec fn spec_parse_age(v: Seq<char>) -> Option<int> {
    if 1 <= v.len() <= 9 && all_digits(v) {
        Some(dec_value(v))
    } else {
        None
    }
}

/// A flag is exactly `true` or `false`.
pub open spec fn spec_parse_flag(v: Seq<char>) -> Option<bool> {
    if v == "true"@ {
        Some(true)
    } else if v == "false"@ {
        Some(false)
    } else {
        None
    }
}

/// What a raw value means for a field, if anything: the field coercer.
pub open spec fn spec_coerce(f: Field, v: Seq<char>) -> Option<UpdM> {
    match f {
        Field::Name => Some(UpdM::Name(v)),
        Field::Description => Some(UpdM::Description(v)),
        Field::Category => match ItemCategory::spec_from_label(v) {
            Some(c) => Some(UpdM::Category(c)),
            None => None,
        },
        Field::Action => match ItemAction::spec_from_label(v) {
            Some(a) => Some(UpdM::Action(a)),
            None => None,
        },
        Field::DateAdded => match parse_date_text(v) {
            Some(d) => Some(UpdM::DateAdded(d)),
            None => None,
        },
        Field::AgeYears => match spec_parse_age(v) {
            Some(a) => Some(UpdM::AgeYears(a)),
            None => None,
        },
        Field::DateAcquired => match parse_date_text(v) {
            Some(d) => Some(UpdM::DateAcquired(d)),
            None => None,
        },
        Field::PurchasePrice => match parse_cents_text(v) {
            Some(c) => Some(UpdM::PurchasePrice(c)),
            None => None,
        },
        Field::EstimatedValue => match parse_cents_text(v) {
            Some(c) => Some(UpdM::EstimatedValue(c)),
            None => None,
        },
        Field::Creator => Some(UpdM::Creator(v)),
        Field::Working => match spec_parse_flag(v) {
            Some(b) => Some(UpdM::Working(b)),
            None => None,
        },
        Field::Provenance => Some(UpdM::Provenance(v)),
        Field::Deleted => match spec_parse_flag(v) {
            Some(b) => Some(UpdM::Deleted(b)),
            None => None,
        },
    }
}

/// Looks a column name up in the field table.
pub fn resolve_field(s: &str) -> (r: Option<Field>)
    ensures
        r == spec_resolve(s@),
{
    if str_eq(s, "name") {
        Some(Field::Name)
    } else if str_eq(s, "description") {
        Some(Field::Description)
    } else if str_eq(s, "category") {
        Some(Field::Category)
    } else if str_eq(s, "action") {
        Some(Field::Action)
    } else if str_eq(s, "date_added") {
        Some(Field::DateAdded)
    } else if str_eq(s, "age_years") {
        Some(Field::AgeYears)
    } else if str_eq(s, "date_acquired") {
        Some(Field::DateAcquired)
    } else if str_eq(s, "purchase_price") {
        Some(Field::PurchasePrice)
    } else if str_eq(s, "estimated_value") {
        Some(Field::EstimatedValue)
    } else if str_eq(s, "creator") {
        Some(Field::Creator)
    } else if str_eq(s, "working") {
        Some(Field::Working)
    } else if str_eq(s, "provenance") {
        Some(Field::Provenance)
    } else if str_eq(s, "deleted") {
        Some(Field::Deleted)
    } else {
        None
    }
}

fn parse_age(v: &str) -> (r: Option<u32>)
    ensures
        (r is Some) == (spec_parse_age(v@) is Some),
        r matches Some(a) ==> spec_parse_age(v@) == Some(a as int),
{
    let n = v.unicode_len();
    if n < 1 || n > 9 {
        return None;
    }
    match crate::text::parse_digits_u64(v, 0, n) {
        Some(a) => {
            proof {
                assert(v@.subrange(0, n as int) =~= v@);
                crate::text::lemma_dec_value_bound(v@);
                crate::text::lemma_pow10_mono(v@.len() as nat, 9);
                assert(crate::text::pow10(9) == 1_000_000_000) by {
                    reveal_with_fuel(crate::text::pow10, 10);
                }
            }
            Some(a as u32)
        },
        None => {
            proof {
                assert(v@.subrange(0, n as int) =~= v@);
            }
            None
        },
    }
}

fn parse_flag(v: &str) -> (r: Option<bool>)
    ensures
        r == spec_parse_flag(v@),
{
    if str_eq(v, "true") {
        Some(true)
    } else if str_eq(v, "false") {
        Some(false)
    } else {
        None
    }
}

/// Coerces one raw value into its field's type: the field coercer.
pub fn coerce_field(f: Field, v: &str) -> (r: Option<FieldUpdate>)
    ensures
        (r is Some) == (spec_coerce(f, v@) is Some),
        r matches Some(u) ==> spec_coerce(f, v@) == Some(u@),
{
    match f {
        Field::Name => Some(FieldUpdate::Name(v.to_owned())),
        Field::Description => Some(FieldUpdate::Description(v.to_owned())),
        Field::Category => match ItemCategory::from_label(v) {
            Some(c) => Some(FieldUpdate::Category(c)),
            None => None,
        },
        Field::Action => match ItemAction::from_label(v) {
            Some(a) => Some(FieldUpdate::Action(a)),
            None => None,
        },
        Field::DateAdded => match Date::parse(v) {
            Some(d) => Some(FieldUpdate::DateAdded(d)),
            None => None,
        },
        Field::AgeYears => match parse_age(v) {
            Some(a) => Some(FieldUpdate::AgeYears(a)),
            None => None,
        },
        Field::DateAcquired => match Date::parse(v) {
            Some(d) => Some(FieldUpdate::DateAcquired(d)),
            None => None,
        },
        Field::PurchasePrice => match crate::money::parse_cents(v) {
            Some(c) => Some(FieldUpdate::PurchasePrice(c)),
            None => None,
        },
        Field::EstimatedValue => match crate::money::parse_cents(v) {
            Some(c) => Some(FieldUpdate::EstimatedValue(c)),
            None => None,
        },
        Field::Creator => Some(FieldUpdate::Creator(v.to_owned())),
        Field::Working => match parse_flag(v) {
            Some(b) => Some(FieldUpdate::Working(b)),
            None => None,
        },
        Field::Provenance => Some(FieldUpdate::Provenance(v.to_owned())),
        Field::Deleted => match parse_flag(v) {
            Some(b) => Some(FieldUpdate::Deleted(b)),
            None => None,
        },
    }
}

/// The record after one update is written into it.
pub open spec fn spec_apply_one(i: ItemM, u: UpdM) -> ItemM {
    match u {
        UpdM::Name(v) => ItemM { name: v, ..i },
        UpdM::Description(v) => ItemM { description: v, ..i },
        UpdM::Category(c) => ItemM { category: c, ..i },
        UpdM::Action(a) => ItemM { action: a, ..i },
        UpdM::DateAdded(d) => ItemM { date_added: d, ..i },
        UpdM::AgeYears(a) => ItemM { age_years: Some(a), ..i },
        UpdM::DateAcquired(d) => ItemM { date_acquired: Some(d), ..i },
        UpdM::PurchasePrice(p) => ItemM { purchase_price: Some(p), ..i },
        UpdM::EstimatedValue(v) => ItemM { estimated_value: Some(v), ..i },
        UpdM::Creator(v) => ItemM { creator: Some(v), ..i },
        UpdM::Working(b) => ItemM { working: Some(b), ..i },
        UpdM::Provenance(v) => ItemM { provenance: Some(v), ..i },
        UpdM::Deleted(b) => ItemM { deleted: b, ..i },
    }
}

/// The record after a whole plan is written into it, in order.
pub open spec fn spec_apply_all(i: ItemM, p: Seq<UpdM>) -> ItemM
    decreases p.len(),
{
    if p.len() == 0 {
        i
    } else {
        spec_apply_one(spec_apply_all(i, p.drop_last()), p.last())
    }
}

/// The set of fields a plan writes.
pub open spec fn touched_fields(p: Seq<UpdM>) -> Set<Field>
    decreases p.len(),
{
    if p.len() == 0 {
        Set::empty()
    } else {
        touched_fields(p.drop_last()).insert(touches(p.last()))
    }
}

/// `b` differs from `a` at most in the fields of `s`; identity and the
/// engine-stamped date are never among them.
pub open spec fn agree_off(a: ItemM, b: ItemM, s: Set<Field>) -> bool {
    &&& a.id == b.id
    &&& a.last_updated == b.last_updated
    &&& (!s.contains(Field::Name) ==> a.name == b.name)
    &&& (!s.contains(Field::Description) ==> a.description == b.description)
    &&& (!s.contains(Field::Category) ==> a.category == b.category)
    &&& (!s.contains(Field::Action) ==> a.action == b.action)
    &&& (!s.contains(Field::DateAdded) ==> a.date_added == b.date_added)
    &&& (!s.contains(Field::AgeYears) ==> a.age_years == b.age_years)
    &&& (!s.contains(Field::DateAcquired) ==> a.date_acquired == b.date_acquired)
    &&& (!s.contains(Field::PurchasePrice) ==> a.purchase_price == b.purchase_price)
    &&& (!s.contains(Field::EstimatedValue) ==> a.estimated_value == b.estimated_value)
    &&& (!s.contains(Field::Creator) ==> a.creator == b.creator)
    &&& (!s.contains(Field::Working) ==> a.working == b.working)
    &&& (!s.contains(Field::Provenance) ==> a.provenance == b.provenance)
    &&& (!s.contains(Field::Deleted) ==> a.deleted == b.deleted)
}

/// A plan leaves every field it does not name untouched: the frame of a
/// partial update.
pub proof fn lemma_apply_frame(i: ItemM, p: Seq<UpdM>)
    ensures
        agree_off(i, spec_apply_all(i, p), touched_fields(p)),
    decreases p.len(),
{
    if p.len() > 0 {
        lemma_apply_frame(i, p.drop_last());
    }
}

/// Writes a plan into a record, in order.
pub fn apply_plan(item: Item, plan: &Vec<FieldUpdate>) -> (r: Item)
    ensures
        r@ == spec_apply_all(item@, plan@.map_values(|u: FieldUpdate| u@)),
{
    let ghost i0 = item@;
    let ghost pm = plan@.map_values(|u: FieldUpdate| u@);
    let mut it = item;
    let mut k: usize = 0;
    while k < plan.len()
        invariant
            k <= plan.len(),
            pm == plan@.map_values(|u: FieldUpdate| u@),
            it@ == spec_apply_all(i0, pm.subrange(0, k as int)),
        decreases plan.len() - k,
    {
        match &plan[k] {
            FieldUpdate::Name(v) => {
                it.name = v.clone();
            },
            FieldUpdate::Description(v) => {
                it.description = v.clone();
            },
            FieldUpdate::Category(c) => {
                it.category = *c;
            },
            FieldUpdate::Action(a) => {
                it.action = *a;
            },
            FieldUpdate::DateAdded(d) => {
                it.date_added = *d;
            },
            FieldUpdate::AgeYears(a) => {
                it.age_years = Some(*a);
            },
            FieldUpdate::DateAcquired(d) => {
                it.date_acquired = Some(*d);
            },
            FieldUpdate::PurchasePrice(p) => {
                it.purchase_price = Some(*p);
            },
            FieldUpdate::EstimatedValue(v) => {
                it.estimated_value = Some(*v);
            },
            FieldUpdate::Creator(v) => {
                it.creator = Some(v.clone());
            },
            FieldUpdate::Working(b) => {
                it.working = Some(*b);
            },
            FieldUpdate::Provenance(v) => {
                it.provenance = Some(v.clone());
            },
            FieldUpdate::Deleted(b) => {
                it.deleted = *b;
            },
        }
        proof {
            assert(pm.subrange(0, (k + 1) as int).drop_last() =~= pm.subrange(0, k as int));
            assert(pm.subrange(0, (k + 1) as int).last() == pm[k as int]);
        }
        k = k + 1;
    }
    proof {
        assert(pm.subrange(0, pm.len() as int) =~= pm);
    }
    it
}

/// Every name in the request resolves against the field table.
pub open spec fn names_ok(us: Seq<(String, String)>) -> bool {
    forall|j: int| 0 <= j < us.len() ==> spec_resolve((#[trigger] us[j]).0@) is Some
}

/// Every name resolves and every value coerces: the whole request is
/// well-formed.
pub open spec fn updates_ok(us: Seq<(String, String)>) -> bool {
    forall|j: int|
        0 <= j < us.len() ==> {
            let u = #[trigger] us[j];
            spec_resolve(u.0@) is Some && spec_coerce(spec_resolve(u.0@).unwrap(), u.1@) is Some
        }
}

/// The typed plan a well-formed request compiles to, pair by pair.
pub open spec fn spec_plan(us: Seq<(String, String)>) -> Seq<UpdM> {
    Seq::new(us.len(), |j: int| spec_coerce(spec_resolve(us[j].0@).unwrap(), us[j].1@).unwrap())
}

/// Turns raw name/value pairs into a typed plan, or reports the first
/// unknown field name, or — when every name is known — the first value
/// that will not coerce.  A failed compilation yields no plan at all.
pub fn compile_updates(updates: &Vec<(String, String)>) -> (r: Result<
    Vec<FieldUpdate>,
    CatalogError,
>)
    ensures
        (r is Ok) == updates_ok(updates@),
        r matches Ok(plan) ==> plan@.map_values(|u: FieldUpdate| u@) =~= spec_plan(updates@),
        r matches Err(e) ==> (e matches CatalogError::UnknownField(_) || e
            matches CatalogError::Coercion { .. }),
        r matches Err(CatalogError::UnknownField(n)) ==> exists|k: int|
            0 <= k < updates@.len() && spec_resolve(#[trigger] updates@[k].0@) is None && n@
                == updates@[k].0@,
        r matches Err(CatalogError::Coercion { field, value }) ==> names_ok(updates@) && exists|
            k: int,
        |
            0 <= k < updates@.len() && spec_coerce(
                spec_resolve(#[trigger] updates@[k].0@).unwrap(),
                updates@[k].1@,
            ) is None && field@ == updates@[k].0@ && value@ == updates@[k].1@,
{
    // First pass: every name must resolve before any value is looked at.
    let mut fields: Vec<Field> = Vec::new();
    let mut j: usize = 0;
    while j < updates.len()
        invariant
            j <= updates.len(),
            fields@.len() == j,
            forall|t: int|
                0 <= t < j ==> spec_resolve(#[trigger] updates@[t].0@) == Some(fields@[t]),
        decreases updates.len() - j,
    {
        match resolve_field(updates[j].0.as_str()) {
            Some(f) => {
                fields.push(f);
            },
            None => {
                return Err(CatalogError::UnknownField(updates[j].0.clone()));
            },
        }
        j = j + 1;
    }
    // Second pass: coerce every value.
    let mut plan: Vec<FieldUpdate> = Vec::new();
    let mut k: usize = 0;
    while k < updates.len()
        invariant
            k <= updates.len(),
            fields@.len() == updates@.len(),
            forall|t: int|
                0 <= t < updates@.len() ==> spec_resolve(#[trigger] updates@[t].0@) == Some(
                    fields@[t],
                ),
            plan@.len() == k,
            forall|t: int|
                0 <= t < k ==> spec_coerce(
                    spec_resolve(#[trigger] updates@[t].0@).unwrap(),
                    updates@[t].1@,
                ) == Some(plan@.map_values(|u: FieldUpdate| u@)[t]),
        decreases updates.len() - k,
    {
        match coerce_field(fields[k], updates[k].1.as_str()) {
            Some(u) => {
                let ghost before = plan@.map_values(|u: FieldUpdate| u@);
                plan.push(u);
                proof {
                    assert(plan@.map_values(|u: FieldUpdate| u@) =~= before.push(u@));
                }
            },
            None => {
                return Err(
                    CatalogError::Coercion {
                        field: updates[k].0.clone(),
                        value: updates[k].1.clone(),
                    },
                );
            },
        }
        k = k + 1;
    }
    Ok(plan)
}

} // verus!
