//! The stored shape of a record and the codec between it and `Item`.
//!
//! The table keeps text for names, labels and dates, integers for cents,
//! ages and flags.  `RawRow` carries one row's column values in column
//! order; `RowModel` is its mathematical value.  Encoding an item and
//! decoding the result gives the item back, which is what makes a stored
//! record faithful to the one that was written.

use vstd::prelude::*;
use vstd::string::*;
use crate::dates::{date_text, fallback_dm, parse_date_text, valid_dm, Date};
use crate::models::{clone_opt_string, Item, ItemAction, ItemCategory, ItemM};

verus! {

/// Mathematical value of one stored row.
pub struct RowModel {
    pub id: int,
    pub name: Seq<char>,
    pub description: Seq<char>,
    pub category: Seq<char>,
    pub action: Seq<char>,
    pub date_added: Seq<char>,
    pub last_updated: Seq<char>,
    pub age_years: Option<int>,
    pub date_acquired: Option<Seq<char>>,
    pub purchase_price: Option<int>,
    pub estimated_value: Option<int>,
    pub creator: Option<Seq<char>>,
    pub working: Option<int>,
    pub provenance: Option<Seq<char>>,
    pub deleted: int,
}

/// One row as it crosses the store boundary, fields in column order:
/// id, name, description, category, action, date_added, last_updated,
/// age_years, date_acquired, purchase_price, estimated_value, creator,
/// working, provenance, deleted.
pub struct RawRow(
    pub i64,
    pub String,
    pub String,
    pub String,
    pub String,
    pub String,
    pub String,
    pub Option<i64>,
    pub Option<String>,
    pub Option<i64>,
    pub Option<i64>,
    pub Option<String>,
    pub Option<i64>,
    pub Option<String>,
    pub i64,
);

impl View for RawRow {
    type V = RowModel;

    open spec fn view(&self) -> RowModel {
        RowModel {
            id: self.0 as int,
            name: self.1@,
            description: self.2@,
            category: self.3@,
            action: self.4@,
            date_added: self.5@,
            last_updated: self.6@,
            age_years: match self.7 {
                Some(a) => Some(a as int),
                None => None,
            },
            date_acquired: match &self.8 {
                Some(d) => Some(d@),
                None => None,
            },
            purchase_price: match self.9 {
                Some(p) => Some(p as int),
                None => None,
            },
            estimated_value: match self.10 {
                Some(v) => Some(v as int),
                None => None,
            },
            creator: match &self.11 {
                Some(c) => Some(c@),
                None => None,
            },
            working: match self.12 {
                Some(w) => Some(w as int),
                None => None,
            },
            provenance: match &self.13 {
                Some(p) => Some(p@),
                None => None,
            },
            deleted: self.14 as int,
        }
    }
}

/// How an item is written to the store under a given id: labels and dates
/// become text, booleans become 0 or 1, everything else is carried as is.
pub open spec fn encode_item(i: ItemM, id: int) -> RowModel {
    RowModel {
        id: id,
        name: i.name,
        description: i.description,
        category: i.category.spec_label(),
        action: i.action.spec_label(),
        date_added: date_text(i.date_added),
        last_updated: date_text(i.last_updated),
        age_years: i.age_years,
        date_acquired: match i.date_acquired {
            Some(d) => Some(date_text(d)),
            None => None,
        },
        purchase_price: i.purchase_price,
        estimated_value: i.estimated_value,
        creator: i.creator,
        working: match i.working {
            Some(true) => Some(1),
            Some(false) => Some(0),
            None => None,
        },
        provenance: i.provenance,
        deleted: if i.deleted {
            1
        } else {
            0
        },
    }
}

/// How a stored row is read back as an item.  Unreadable labels fall back
/// to `Other` and `Keep`, unreadable dates to the fallback date, an age
/// outside the age counter's range to absence; any non-zero flag counts as
/// set.  A row written by `encode_item` never takes a fallback.
pub open spec fn decode_row(r: RowModel) -> ItemM {
    ItemM {
        id: r.id,
        name: r.name,
        description: r.description,
        category: match ItemCategory::spec_from_label(r.category) {
            Some(c) => c,
            None => ItemCategory::Other,
        },
        action: match ItemAction::spec_from_label(r.action) {
            Some(a) => a,
            None => ItemAction::Keep,
        },
        date_added: match parse_date_text(r.date_added) {
            Some(d) => d,
            None => fallback_dm(),
        },
        last_updated: match parse_date_text(r.last_updated) {
            Some(d) => d,
            None => fallback_dm(),
        },
        deleted: r.deleted != 0,
        age_years: match r.age_years {
            Some(a) => if 0 <= a <= u32::MAX {
                Some(a)
            } else {
                None
            },
            None => None,
        },
        date_acquired: match r.date_acquired {
            Some(t) => parse_date_text(t),
            None => None,
        },
        purchase_price: r.purchase_price,
        estimated_value: r.estimated_value,
        creator: r.creator,
        working: match r.working {
            Some(w) => Some(w != 0),
            None => None,
        },
        provenance: r.provenance,
    }
}

/// Builds the row under which `item` is stored with the given id.
pub fn encode_row(item: &Item, id: i64) -> (r: RawRow)
    ensures
        r@ == encode_item(item@, id as int),
{
    RawRow(
        id,
        item.name.clone(),
        item.description.clone(),
        item.category.label(),
        item.action.label(),
        item.date_added.format(),
        item.last_updated.format(),
        match item.age_years {
            Some(a) => Some(a as i64),
            None => None,
        },
        match &item.date_acquired {
            Some(d) => Some(d.format()),
            None => None,
        },
        item.purchase_price,
        item.estimated_value,
        clone_opt_string(&item.creator),
        match item.working {
            Some(true) => Some(1),
            Some(false) => Some(0),
            None => None,
        },
        clone_opt_string(&item.provenance),
        if item.deleted {
            1
        } else {
            0
        },
    )
}

impl Item {
    /// Reads a stored row back as an item.
    pub fn from_row(r: &RawRow) -> (it: Item)
        ensures
            it@ == decode_row(r@),
    {
        decode_raw(r)
    }
}

/// Reads a stored row back as an item.
fn decode_raw(r: &RawRow) -> (it: Item)
    ensures
        it@ == decode_row(r@),
{
    Item {
        id: r.0,
        name: r.1.clone(),
        description: r.2.clone(),
        category: match ItemCategory::from_label(r.3.as_str()) {
            Some(c) => c,
            None => ItemCategory::Other,
        },
        action: match ItemAction::from_label(r.4.as_str()) {
            Some(a) => a,
            None => ItemAction::Keep,
        },
        date_added: match Date::parse(r.5.as_str()) {
            Some(d) => d,
            None => Date::fallback(),
        },
        last_updated: match Date::parse(r.6.as_str()) {
            Some(d) => d,
            None => Date::fallback(),
        },
        deleted: r.14 != 0,
        age_years: match r.7 {
            Some(a) => if 0 <= a && a <= u32::MAX as i64 {
                Some(a as u32)
            } else {
                None
            },
            None => None,
        },
        date_acquired: match &r.8 {
            Some(t) => Date::parse(t.as_str()),
            None => None,
        },
        purchase_price: r.9,
        estimated_value: r.10,
        creator: clone_opt_string(&r.11),
        working: match r.12 {
            Some(w) => Some(w != 0),
            None => None,
        },
        provenance: clone_opt_string(&r.13),
    }
}

/// An item's view carries only values a record can hold: dates are real
/// calendar dates and the optional age fits its counter.
pub open spec fn storable(i: ItemM) -> bool {
    &&& valid_dm(i.date_added)
    &&& valid_dm(i.last_updated)
    &&& (match i.date_acquired {
        Some(d) => valid_dm(d),
        None => true,
    })
    &&& (match i.age_years {
        Some(a) => 0 <= a <= u32::MAX,
        None => true,
    })
}

/// Every `Item` is storable; the date type and the age type see to it.
pub proof fn lemma_item_storable(item: Item)
    requires
        valid_dm(item.date_added@),
        valid_dm(item.last_updated@),
        (item.date_acquired matches Some(d) ==> valid_dm(d@)),
    ensures
        storable(item@),
{
}

/// Whatever a row holds, the item it decodes to is storable: unreadable
/// stored dates become the fallback date and an oversized age becomes
/// absence, so the decoder never produces a value the encoder could not
/// take back.
pub proof fn lemma_decode_storable(r: RowModel)
    ensures
        storable(decode_row(r)),
{
}

/// Writing an item and reading the row back yields the item, with the id
/// under which it was written.
pub proof fn lemma_row_roundtrip(i: ItemM, id: int)
    requires
        storable(i),
    ensures
        decode_row(encode_item(i, id)) == (ItemM { id: id, ..i }),
{
    i.category.lemma_label_roundtrip();
    i.action.lemma_label_roundtrip();
    crate::dates::lemma_date_text_roundtrip(i.date_added);
    crate::dates::lemma_date_text_roundtrip(i.last_updated);
    if let Some(d) = i.date_acquired {
        crate::dates::lemma_date_text_roundtrip(d);
    }
}

} // verus!
