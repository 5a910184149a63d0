//! The catalog's record type and its closed enumerations.
//!
//! `Item` is the in-memory shape of one record.  Monetary amounts are whole
//! cents, dates are `Date` values, and the two enumerations travel through
//! the store as their label text.  `validate` collects every violated
//! business rule in one pass.

use vstd::prelude::*;
use vstd::string::*;
use crate::dates::{Date, DateM};
use crate::text::{is_blank, str_eq};

verus! {

#[derive(Clone, Copy, Debug, PartialEq, Eq, Structural)]
pub enum ItemAction {
    Keep,
    Sell,
}

#[derive(Clone, Copy, Debug, PartialEq, Eq, Structural)]
pub enum ItemCategory {
    Antique,
    Book,
    Decor,
    ElectronicDevice,
    Furniture,
    HouseholdItem,
    Kitchenware,
    MineralSpecimen,
    Tool,
    Wood,
    Other,
}

impl ItemAction {
    pub open spec fn spec_label(self) -> Seq<char> {
        match self {
            ItemAction::Keep => "Keep"@,
            ItemAction::Sell => "Sell"@,
        }
    }

    pub open spec fn spec_from_label(s: Seq<char>) -> Option<ItemAction> {
        if s == "Keep"@ {
            Some(ItemAction::Keep)
        } else if s == "Sell"@ {
            Some(ItemAction::Sell)
        } else {
            None
        }
    }

    /// The label under which the action is stored and printed.
    pub fn label(&self) -> (r: String)
        ensures
            r@ == self.spec_label(),
    {
        match self {
            ItemAction::Keep => "Keep".to_owned(),
            ItemAction::Sell => "Sell".to_owned(),
        }
    }

    /// Reads an action from its label; only the exact labels are accepted.
    pub fn from_label(s: &str) -> (r: Option<ItemAction>)
        ensures
            r == Self::spec_from_label(s@),
    {
        if str_eq(s, "Keep") {
            Some(ItemAction::Keep)
        } else if str_eq(s, "Sell") {
            Some(ItemAction::Sell)
        } else {
            None
        }
    }

    /// Each label names its own action: reading a written label gives the
    /// action back.
    pub proof fn lemma_label_roundtrip(self)
        ensures
            Self::spec_from_label(self.spec_label()) == Some(self),
    {
        reveal_strlit("Keep");
        reveal_strlit("Sell");
        assert(("Keep"@)[0] == 'K');
        assert(("Sell"@)[0] == 'S');
    }
}

impl ItemCategory {
    pub open spec fn spec_label(self) -> Seq<char> {
        match self {
            ItemCategory::Antique => "Antique"@,
            ItemCategory::Book => "Book"@,
            ItemCategory::Decor => "Decor"@,
            ItemCategory::ElectronicDevice => "ElectronicDevice"@,
            ItemCategory::Furniture => "Furniture"@,
            ItemCategory::HouseholdItem => "HouseholdItem"@,
            ItemCategory::Kitchenware => "Kitchenware"@,
            ItemCategory::MineralSpecimen => "MineralSpecimen"@,
            ItemCategory::Tool => "Tool"@,
            ItemCategory::Wood => "Wood"@,
            ItemCategory::Other => "Other"@,
        }
    }

    pub open spec fn spec_from_label(s: Seq<char>) -> Option<ItemCategory> {
        if s == "Antique"@ {
            Some(ItemCategory::Antique)
        } else if s == "Book"@ {
            Some(ItemCategory::Book)
        } else if s == "Decor"@ {
            Some(ItemCategory::Decor)
        } else if s == "ElectronicDevice"@ {
            Some(ItemCategory::ElectronicDevice)
        } else if s == "Furniture"@ {
            Some(ItemCategory::Furniture)
        } else if s == "HouseholdItem"@ {
            Some(ItemCategory::HouseholdItem)
        } else if s == "Kitchenware"@ {
            Some(ItemCategory::Kitchenware)
        } else if s == "MineralSpecimen"@ {
            Some(ItemCategory::MineralSpecimen)
        } else if s == "Tool"@ {
            Some(ItemCategory::Tool)
        } else if s == "Wood"@ {
            Some(ItemCategory::Wood)
        } else if s == "Other"@ {
            Some(ItemCategory::Other)
        } else {
            None
        }
    }

    /// The label under which the category is stored and printed.
    pub fn label(&self) -> (r: String)
        ensures
            r@ == self.spec_label(),
    {
        match self {
            ItemCategory::Antique => "Antique".to_owned(),
            ItemCategory::Book => "Book".to_owned(),
            ItemCategory::Decor => "Decor".to_owned(),
            ItemCategory::ElectronicDevice => "ElectronicDevice".to_owned(),
            ItemCategory::Furniture => "Furniture".to_owned(),
            ItemCategory::HouseholdItem => "HouseholdItem".to_owned(),
            ItemCategory::Kitchenware => "Kitchenware".to_owned(),
            ItemCategory::MineralSpecimen => "MineralSpecimen".to_owned(),
            ItemCategory::Tool => "Tool".to_owned(),
            ItemCategory::Wood => "Wood".to_owned(),
            ItemCategory::Other => "Other".to_owned(),
        }
    }

    /// Reads a category from its label; only the exact labels are accepted.
    pub fn from_label(s: &str) -> (r: Option<ItemCategory>)
        ensures
            r == Self::spec_from_label(s@),
    {
        if str_eq(s, "Antique") {
            Some(ItemCategory::Antique)
        } else if str_eq(s, "Book") {
            Some(ItemCategory::Book)
        } else if str_eq(s, "Decor") {
            Some(ItemCategory::Decor)
        } else if str_eq(s, "ElectronicDevice") {
            Some(ItemCategory::ElectronicDevice)
        } else if str_eq(s, "Furniture") {
            Some(ItemCategory::Furniture)
        } else if str_eq(s, "HouseholdItem") {
            Some(ItemCategory::HouseholdItem)
        } else if str_eq(s, "Kitchenware") {
            Some(ItemCategory::Kitchenware)
        } else if str_eq(s, "MineralSpecimen") {
            Some(ItemCategory::MineralSpecimen)
        } else if str_eq(s, "Tool") {
            Some(ItemCategory::Tool)
        } else if str_eq(s, "Wood") {
            Some(ItemCategory::Wood)
        } else if str_eq(s, "Other") {
            Some(ItemCategory::Other)
        } else {
            None
        }
    }

    /// Each label names its own category: reading a written label gives the
    /// category back.
    pub proof fn lemma_label_roundtrip(self)
        ensures
            Self::spec_from_label(self.spec_label()) == Some(self),
    {
        reveal_strlit("Antique");
        reveal_strlit("Book");
        reveal_strlit("Decor");
        reveal_strlit("ElectronicDevice");
        reveal_strlit("Furniture");
        reveal_strlit("HouseholdItem");
        reveal_strlit("Kitchenware");
        reveal_strlit("MineralSpecimen");
        reveal_strlit("Tool");
        reveal_strlit("Wood");
        reveal_strlit("Other");
        assert(("Antique"@)[0] == 'A');
        assert(("Book"@)[0] == 'B');
        assert(("Decor"@)[0] == 'D');
        assert(("ElectronicDevice"@)[0] == 'E');
        assert(("Furniture"@)[0] == 'F');
        assert(("HouseholdItem"@)[0] == 'H');
        assert(("Kitchenware"@)[0] == 'K');
        assert(("MineralSpecimen"@)[0] == 'M');
        assert(("Tool"@)[0] == 'T');
        assert(("Wood"@)[0] == 'W');
        assert(("Other"@)[0] == 'O');
    }
}

impl core::str::FromStr for ItemAction {
    type Err = ();

    fn from_str(s: &str) -> Result<Self, Self::Err> {
        match ItemAction::from_label(s) {
            Some(a) => Ok(a),
            None => Err(()),
        }
    }
}

impl core::str::FromStr for ItemCategory {
    type Err = ();

    fn from_str(s: &str) -> Result<Self, Self::Err> {
        match ItemCategory::from_label(s) {
            Some(c) => Ok(c),
            None => Err(()),
        }
    }
}

/// Mathematical value of one catalog record.
pub struct ItemM {
    pub id: int,
    pub name: Seq<char>,
    pub description: Seq<char>,
    pub category: ItemCategory,
    pub action: ItemAction,
    pub date_added: DateM,
    pub last_updated: DateM,
    pub deleted: bool,
    pub age_years: Option<int>,
    pub date_acquired: Option<DateM>,
    pub purchase_price: Option<int>,
    pub estimated_value: Option<int>,
    pub creator: Option<Seq<char>>,
    pub working: Option<bool>,
    pub provenance: Option<Seq<char>>,
}

/// One catalog record.  `id` 0 means the store has not assigned one yet;
/// money fields are cents.
#[derive(Clone, Debug)]
pub struct Item {
    pub id: i64,
    pub name: String,
    pub description: String,
    pub category: ItemCategory,
    pub action: ItemAction,
    pub date_added: Date,
    pub last_updated: Date,
    pub deleted: bool,
    pub age_years: Option<u32>,
    pub date_acquired: Option<Date>,
    pub purchase_price: Option<i64>,
    pub estimated_value: Option<i64>,
    pub creator: Option<String>,
    pub working: Option<bool>,
    pub provenance: Option<String>,
}

impl View for Item {
    type V = ItemM;

    open spec fn view(&self) -> ItemM {
        ItemM {
            id: self.id as int,
            name: self.name@,
            description: self.description@,
            category: self.category,
            action: self.action,
            date_added: self.date_added@,
            last_updated: self.last_updated@,
            deleted: self.deleted,
            age_years: match self.age_years {
                Some(a) => Some(a as int),
                None => None,
            },
            date_acquired: match self.date_acquired {
                Some(d) => Some(d@),
                None => None,
            },
            purchase_price: match self.purchase_price {
                Some(p) => Some(p as int),
                None => None,
            },
            estimated_value: match self.estimated_value {
                Some(v) => Some(v as int),
                None => None,
            },
            creator: match &self.creator {
                Some(c) => Some(c@),
                None => None,
            },
            working: self.working,
            provenance: match &self.provenance {
                Some(p) => Some(p@),
                None => None,
            },
        }
    }
}

/// The business rules an item must meet before it is written: a name that is
/// neither blank nor longer than fifty characters, a non-blank description,
/// and no negative money amount.
pub open spec fn valid_item(i: ItemM) -> bool {
    &&& !is_blank(i.name)
    &&& i.name.len() <= 50
    &&& !is_blank(i.description)
    &&& (match i.purchase_price {
        Some(p) => p >= 0,
        None => true,
    })
    &&& (match i.estimated_value {
        Some(v) => v >= 0,
        None => true,
    })
}

/// The full, ordered list of rule violations for an item.
pub open spec fn violation_texts(i: ItemM) -> Seq<Seq<char>> {
    (if is_blank(i.name) {
        seq!["Name cannot be empty."@]
    } else if i.name.len() > 50 {
        seq!["Name cannot be more than 50 characters."@]
    } else {
        Seq::<Seq<char>>::empty()
    }) + (if is_blank(i.description) {
        seq!["Description cannot be empty."@]
    } else {
        Seq::<Seq<char>>::empty()
    }) + (match i.purchase_price {
        Some(p) => if p < 0 {
            seq!["Purchase price cannot be negative."@]
        } else {
            Seq::<Seq<char>>::empty()
        },
        None => Seq::<Seq<char>>::empty(),
    }) + (match i.estimated_value {
        Some(v) => if v < 0 {
            seq!["Estimated value cannot be negative."@]
        } else {
            Seq::<Seq<char>>::empty()
        },
        None => Seq::<Seq<char>>::empty(),
    })
}

pub(crate) fn clone_opt_string(s: &Option<String>) -> (r: Option<String>)
    ensures
        (r is Some) == (s is Some),
        r matches Some(v) ==> s matches Some(w) && v@ == w@,
{
    match s {
        Some(v) => Some(v.clone()),
        None => None,
    }
}

impl Item {
    /// An exact copy of the record.
    pub fn clone_record(&self) -> (r: Item)
        ensures
            r@ == self@,
    {
        Item {
            id: self.id,
            name: self.name.clone(),
            description: self.description.clone(),
            category: self.category,
            action: self.action,
            date_added: self.date_added,
            last_updated: self.last_updated,
            deleted: self.deleted,
            age_years: self.age_years,
            date_acquired: self.date_acquired,
            purchase_price: self.purchase_price,
            estimated_value: self.estimated_value,
            creator: clone_opt_string(&self.creator),
            working: self.working,
            provenance: clone_opt_string(&self.provenance),
        }
    }

    /// Checks every business rule and reports all violations together,
    /// in order; succeeds exactly when there is none.
    pub fn validate(&self) -> (r: Result<(), Vec<String>>)
        ensures
            (r is Ok) == valid_item(self@),
            r matches Err(v) ==> v@.map_values(|s: String| s@) == violation_texts(self@)
                && v@.len() > 0,
    {
        let mut errors: Vec<String> = Vec::new();
        if crate::text::str_is_blank(self.name.as_str()) {
            errors.push("Name cannot be empty.".to_owned());
        } else if self.name.as_str().unicode_len() > 50 {
            errors.push("Name cannot be more than 50 characters.".to_owned());
        }
        if crate::text::str_is_blank(self.description.as_str()) {
            errors.push("Description cannot be empty.".to_owned());
        }
        if let Some(p) = self.purchase_price {
            if p < 0 {
                errors.push("Purchase price cannot be negative.".to_owned());
            }
        }
        if let Some(v) = self.estimated_value {
            if v < 0 {
                errors.push("Estimated value cannot be negative.".to_owned());
            }
        }
        if errors.len() == 0 {
            proof {
                assert(errors@.map_values(|s: String| s@) =~= violation_texts(self@));
                assert(violation_texts(self@).len() == 0);
            }
            Ok(())
        } else {
            proof {
                assert(errors@.map_values(|s: String| s@) =~= violation_texts(self@));
            }
            Err(errors)
        }
    }
}

/// A sparse set of filter criteria; an unset criterion constrains nothing.
/// Substring criteria match case-sensitively anywhere in the field; range
/// criteria are inclusive on both ends; money bounds are cents.
#[derive(Clone, Debug)]
pub struct ItemFilter {
    pub name_contains: Option<String>,
    pub description_contains: Option<String>,
    pub creator_contains: Option<String>,
    pub provenance_contains: Option<String>,
    pub category: Option<ItemCategory>,
    pub action: Option<ItemAction>,
    pub working: Option<bool>,
    pub deleted: Option<bool>,
    pub date_added_min: Option<Date>,
    pub date_added_max: Option<Date>,
    pub last_updated_min: Option<Date>,
    pub last_updated_max: Option<Date>,
    pub date_acquired_min: Option<Date>,
    pub date_acquired_max: Option<Date>,
    pub age_years_min: Option<u32>,
    pub age_years_max: Option<u32>,
    pub purchase_price_min: Option<i64>,
    pub purchase_price_max: Option<i64>,
    pub estimated_value_min: Option<i64>,
    pub estimated_value_max: Option<i64>,
}

/// Every criterion unset.
pub open spec fn unconstrained(f: ItemFilter) -> bool {
    &&& f.name_contains is None
    &&& f.description_contains is None
    &&& f.creator_contains is None
    &&& f.provenance_contains is None
    &&& f.category is None
    &&& f.action is None
    &&& f.working is None
    &&& f.deleted is None
    &&& f.date_added_min is None
    &&& f.date_added_max is None
    &&& f.last_updated_min is None
    &&& f.last_updated_max is None
    &&& f.date_acquired_min is None
    &&& f.date_acquired_max is None
    &&& f.age_years_min is None
    &&& f.age_years_max is None
    &&& f.purchase_price_min is None
    &&& f.purchase_price_max is None
    &&& f.estimated_value_min is None
    &&& f.estimated_value_max is None
}

impl Default for ItemFilter {
    /// The filter with no criterion set.
    fn default() -> (r: Self)
        ensures
            unconstrained(r),
    {
        ItemFilter {
            name_contains: None,
            description_contains: None,
            creator_contains: None,
            provenance_contains: None,
            category: None,
            action: None,
            working: None,
            deleted: None,
            date_added_min: None,
            date_added_max: None,
            last_updated_min: None,
            last_updated_max: None,
            date_acquired_min: None,
            date_acquired_max: None,
            age_years_min: None,
            age_years_max: None,
            purchase_price_min: None,
            purchase_price_max: None,
            estimated_value_min: None,
            estimated_value_max: None,
        }
    }
}

} // verus!
