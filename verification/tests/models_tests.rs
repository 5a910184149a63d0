use std::str::FromStr;

use collection_catalog::money::parse_cents;
use collection_catalog::{Date, Item, ItemAction, ItemCategory};

fn make_item() -> Item {
    Item {
        id: 1,
        name: "Valid Name".to_string(),
        description: "Nice item".to_string(),
        category: ItemCategory::Book,
        action: ItemAction::Keep,
        date_added: Date::new(2024, 1, 1).unwrap(),
        last_updated: Date::new(2024, 1, 1).unwrap(),
        age_years: Some(10),
        date_acquired: None,
        purchase_price: Some(10000),
        estimated_value: Some(12000),
        creator: None,
        working: Some(true),
        provenance: None,
        deleted: false,
    }
}

#[test]
fn test_item_category_display_and_parse() {
    let cat = ItemCategory::Book;
    assert_eq!(cat.label(), "Book");
    let parsed = ItemCategory::from_str("Book").unwrap();
    assert!(matches!(parsed, ItemCategory::Book));
}

#[test]
fn models_test_item_category_display_and_parse() {
    let cat = ItemCategory::Book;
    assert_eq!(cat.label(), "Book");
    let parsed = ItemCategory::from_str("Book").unwrap();
    assert!(matches!(parsed, ItemCategory::Book));
}

#[test]
fn test_item_action_display_and_parse() {
    let action = ItemAction::Sell;
    assert_eq!(action.label(), "Sell");
    let parsed = ItemAction::from_str("Sell").unwrap();
    assert!(matches!(parsed, ItemAction::Sell));
}

#[test]
fn models_test_item_action_display_and_parse() {
    let action = ItemAction::Sell;
    assert_eq!(action.label(), "Sell");
    let parsed = ItemAction::from_str("Sell").unwrap();
    assert!(matches!(parsed, ItemAction::Sell));
}

#[test]
fn test_invalid_category_parse() {
    assert!(ItemCategory::from_str("NotARealCategory").is_err());
}

#[test]
fn models_test_invalid_category_parse() {
    assert!(ItemCategory::from_str("NotARealCategory").is_err());
}

#[test]
fn test_valid_item_passes() {
    let item = make_item();
    assert!(item.validate().is_ok());
}

#[test]
fn test_empty_name_fails() {
    let mut item = make_item();
    item.name = " ".to_string();
    assert!(item.validate().is_err());
}

#[test]
fn test_name_too_long_fails() {
    let mut item = make_item();
    item.name = "This is a really long name too long really. It shouldn't be so long.".to_string();
    assert!(item.validate().is_err());
}

#[test]
fn test_no_description_fails() {
    let mut item = make_item();
    item.description = "   ".to_string();
    assert!(item.validate().is_err());
}

#[test]
fn test_negative_price_fails() {
    let mut item = make_item();
    item.purchase_price = Some(-12300);
    assert!(item.validate().is_err());
}

#[test]
fn test_multiple_errors_fails() {
    let mut item = make_item();
    item.description = "   ".to_string();
    item.purchase_price = Some(-1000);
    assert!(item.validate().is_err());
}

#[test]
fn test_validation_collects_every_violation_in_order() {
    let mut item = make_item();
    item.name = "".to_string();
    item.description = "\t".to_string();
    item.purchase_price = Some(-1);
    item.estimated_value = Some(-1);
    let errs = item.validate().unwrap_err();
    assert_eq!(
        errs,
        vec![
            "Name cannot be empty.".to_string(),
            "Description cannot be empty.".to_string(),
            "Purchase price cannot be negative.".to_string(),
            "Estimated value cannot be negative.".to_string(),
        ]
    );
}

#[test]
fn test_name_length_boundary() {
    let mut item = make_item();
    item.name = "x".repeat(50);
    assert!(item.validate().is_ok());
    item.name = "x".repeat(51);
    assert!(item.validate().is_err());
}

#[test]
fn test_every_category_label_round_trips() {
    let cats = [
        ItemCategory::Antique,
        ItemCategory::Book,
        ItemCategory::Decor,
        ItemCategory::ElectronicDevice,
        ItemCategory::Furniture,
        ItemCategory::HouseholdItem,
        ItemCategory::Kitchenware,
        ItemCategory::MineralSpecimen,
        ItemCategory::Tool,
        ItemCategory::Wood,
        ItemCategory::Other,
    ];
    for c in cats {
        assert_eq!(ItemCategory::from_label(&c.label()), Some(c));
    }
}

#[test]
fn test_date_parse_and_format() {
    let d = Date::parse("2024-02-29").unwrap();
    assert_eq!(d.year(), 2024);
    assert_eq!(d.month(), 2);
    assert_eq!(d.day(), 29);
    assert_eq!(d.format(), "2024-02-29");
    assert!(Date::parse("2023-02-29").is_none());
    assert!(Date::parse("2023-13-01").is_none());
    assert!(Date::parse("2023-02-30").is_none());
    assert!(Date::parse("2023-2-3").is_none());
    assert!(Date::parse("not a date").is_none());
    assert!(Date::parse("").is_none());
}

#[test]
fn test_money_parse_forms() {
    assert_eq!(parse_cents("45"), Some(4500));
    assert_eq!(parse_cents("45.5"), Some(4550));
    assert_eq!(parse_cents("45.50"), Some(4550));
    assert_eq!(parse_cents("0.07"), Some(7));
    assert_eq!(parse_cents("-3"), Some(-300));
    assert_eq!(parse_cents("-0.01"), Some(-1));
    assert_eq!(parse_cents("abc"), None);
    assert_eq!(parse_cents(""), None);
    assert_eq!(parse_cents("1.234"), None);
    assert_eq!(parse_cents("1."), None);
    assert_eq!(parse_cents(".5"), None);
}
