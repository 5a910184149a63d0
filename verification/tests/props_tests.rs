use collection_catalog::money::fmt_cents;
use collection_catalog::{Catalog, CatalogError, Date, Item, ItemAction, ItemCategory, ItemFilter};

fn full_item() -> Item {
    Item {
        id: 0,
        name: "Heirloom Bowl".to_string(),
        description: "A ceramic bowl".to_string(),
        category: ItemCategory::Kitchenware,
        action: ItemAction::Keep,
        date_added: Date::new(2023, 6, 15).unwrap(),
        last_updated: Date::new(2023, 6, 15).unwrap(),
        age_years: Some(80),
        date_acquired: Some(Date::new(2005, 5, 15).unwrap()),
        purchase_price: Some(4500),
        estimated_value: Some(12000),
        creator: Some("Unknown".to_string()),
        working: Some(true),
        provenance: Some("Inherited from grandmother".to_string()),
        deleted: false,
    }
}

#[test]
fn test_insert_then_get_restores_every_field() {
    let mut cat = Catalog::open_in_memory().unwrap();
    let item = full_item();
    let id = cat.add_item(&item).unwrap();
    let got = cat.get_item_by_id(id).unwrap().unwrap();
    assert_eq!(got.id, id);
    assert_eq!(got.name, item.name);
    assert_eq!(got.description, item.description);
    assert_eq!(got.category, item.category);
    assert_eq!(got.action, item.action);
    assert_eq!(got.date_added, item.date_added);
    assert_eq!(got.last_updated, item.last_updated);
    assert_eq!(got.deleted, item.deleted);
    assert_eq!(got.age_years, item.age_years);
    assert_eq!(got.date_acquired, item.date_acquired);
    assert_eq!(got.purchase_price, item.purchase_price);
    assert_eq!(got.estimated_value, item.estimated_value);
    assert_eq!(got.creator, item.creator);
    assert_eq!(got.working, item.working);
    assert_eq!(got.provenance, item.provenance);
}

#[test]
fn test_empty_filter_equals_list_all_and_hides_deleted() {
    let mut cat = Catalog::open_in_memory().unwrap();
    let mut item = full_item();
    let id1 = cat.add_item(&item).unwrap();
    item.name = "Second Bowl".to_string();
    let id2 = cat.add_item(&item).unwrap();
    cat.soft_delete_item(id1).unwrap();

    let listed = cat.get_all_items().unwrap();
    let filtered = cat.get_filtered_items(ItemFilter::default()).unwrap();
    assert_eq!(listed.len(), filtered.len());
    assert_eq!(listed.len(), 1);
    assert_eq!(listed[0].id, filtered[0].id);
    assert_eq!(listed[0].id, id2);

    // Asking for deleted records explicitly brings the other one back.
    let mut want_deleted = ItemFilter::default();
    want_deleted.deleted = Some(true);
    let deleted_ones = cat.get_filtered_items(want_deleted).unwrap();
    assert_eq!(deleted_ones.len(), 1);
    assert_eq!(deleted_ones[0].id, id1);
}

#[test]
fn test_update_one_field_changes_only_it_and_the_stamp() {
    let mut cat = Catalog::open_in_memory().unwrap();
    let item = full_item();
    let id = cat.add_item(&item).unwrap();

    let updates = vec![("name".to_string(), "X".to_string())];
    cat.update_item_fields(id, &updates).unwrap();

    let got = cat.get_item_by_id(id).unwrap().unwrap();
    assert_eq!(got.name, "X");
    // Everything but name and last_updated is untouched.
    assert_eq!(got.description, item.description);
    assert_eq!(got.category, item.category);
    assert_eq!(got.action, item.action);
    assert_eq!(got.date_added, item.date_added);
    assert_eq!(got.deleted, item.deleted);
    assert_eq!(got.age_years, item.age_years);
    assert_eq!(got.date_acquired, item.date_acquired);
    assert_eq!(got.purchase_price, item.purchase_price);
    assert_eq!(got.estimated_value, item.estimated_value);
    assert_eq!(got.creator, item.creator);
    assert_eq!(got.working, item.working);
    assert_eq!(got.provenance, item.provenance);
}

#[test]
fn test_update_every_field_kind() {
    let mut cat = Catalog::open_in_memory().unwrap();
    let id = cat.add_item(&full_item()).unwrap();

    let updates = vec![
        ("description".to_string(), "Refinished".to_string()),
        ("action".to_string(), "Sell".to_string()),
        ("date_added".to_string(), "2020-02-29".to_string()),
        ("age_years".to_string(), "99".to_string()),
        ("date_acquired".to_string(), "2001-12-31".to_string()),
        ("purchase_price".to_string(), "12.34".to_string()),
        ("estimated_value".to_string(), "99.9".to_string()),
        ("creator".to_string(), "A. Smith".to_string()),
        ("provenance".to_string(), "Bought at auction".to_string()),
        ("deleted".to_string(), "false".to_string()),
    ];
    cat.update_item_fields(id, &updates).unwrap();

    let got = cat.get_item_by_id(id).unwrap().unwrap();
    assert_eq!(got.description, "Refinished");
    assert_eq!(got.action, ItemAction::Sell);
    assert_eq!(got.date_added, Date::new(2020, 2, 29).unwrap());
    assert_eq!(got.age_years, Some(99));
    assert_eq!(got.date_acquired, Some(Date::new(2001, 12, 31).unwrap()));
    assert_eq!(got.purchase_price, Some(1234));
    assert_eq!(got.estimated_value, Some(9990));
    assert_eq!(got.creator, Some("A. Smith".to_string()));
    assert_eq!(got.provenance, Some("Bought at auction".to_string()));
    assert_eq!(got.deleted, false);
}

#[test]
fn test_soft_delete_keeps_record_retrievable_with_fields_intact() {
    let mut cat = Catalog::open_in_memory().unwrap();
    let item = full_item();
    let id = cat.add_item(&item).unwrap();

    cat.soft_delete_item(id).unwrap();

    let listed = cat.get_all_items().unwrap();
    assert!(listed.iter().all(|it| it.id != id));

    let got = cat.get_item_by_id(id).unwrap().unwrap();
    assert_eq!(got.deleted, true);
    assert_eq!(got.name, item.name);
    assert_eq!(got.description, item.description);
    assert_eq!(got.category, item.category);
    assert_eq!(got.action, item.action);
    assert_eq!(got.date_added, item.date_added);
    assert_eq!(got.age_years, item.age_years);
    assert_eq!(got.date_acquired, item.date_acquired);
    assert_eq!(got.purchase_price, item.purchase_price);
    assert_eq!(got.estimated_value, item.estimated_value);
    assert_eq!(got.creator, item.creator);
    assert_eq!(got.working, item.working);
    assert_eq!(got.provenance, item.provenance);
}

#[test]
fn test_vintage_clock_scenario() {
    let mut cat = Catalog::open_in_memory().unwrap();
    let item = Item {
        id: 0,
        name: "Vintage Clock".to_string(),
        description: "wall clock".to_string(),
        category: ItemCategory::Antique,
        action: ItemAction::Keep,
        date_added: Date::new(2024, 3, 1).unwrap(),
        last_updated: Date::new(2024, 3, 1).unwrap(),
        age_years: None,
        date_acquired: None,
        purchase_price: Some(4500),
        estimated_value: None,
        creator: None,
        working: None,
        provenance: None,
        deleted: false,
    };
    cat.add_item(&item).unwrap();

    let mut by_category = ItemFilter::default();
    by_category.category = Some(ItemCategory::Antique);
    by_category.working = None;
    let found = cat.get_filtered_items(by_category).unwrap();
    assert_eq!(found.len(), 1);
    assert_eq!(found[0].name, "Vintage Clock");

    let mut pricey = ItemFilter::default();
    pricey.purchase_price_min = Some(10000);
    let none = cat.get_filtered_items(pricey).unwrap();
    assert_eq!(none.len(), 0);
}

#[test]
fn test_empty_substring_matches_every_record() {
    let mut cat = Catalog::open_in_memory().unwrap();
    let mut item = full_item();
    item.creator = None;
    cat.add_item(&item).unwrap();

    let mut filter = ItemFilter::default();
    filter.name_contains = Some("".to_string());
    filter.creator_contains = Some("".to_string());
    let results = cat.get_filtered_items(filter).unwrap();
    assert_eq!(results.len(), 1);
}

#[test]
fn test_substring_match_is_case_sensitive() {
    let mut cat = Catalog::open_in_memory().unwrap();
    cat.add_item(&full_item()).unwrap();

    let mut lower = ItemFilter::default();
    lower.name_contains = Some("heirloom".to_string());
    assert_eq!(cat.get_filtered_items(lower).unwrap().len(), 0);

    let mut exact = ItemFilter::default();
    exact.name_contains = Some("Heirloom".to_string());
    assert_eq!(cat.get_filtered_items(exact).unwrap().len(), 1);
}

#[test]
fn test_range_bounds_are_inclusive() {
    let mut cat = Catalog::open_in_memory().unwrap();
    cat.add_item(&full_item()).unwrap();

    let mut f = ItemFilter::default();
    f.purchase_price_min = Some(4500);
    f.purchase_price_max = Some(4500);
    assert_eq!(cat.get_filtered_items(f).unwrap().len(), 1);

    let mut g = ItemFilter::default();
    g.date_added_min = Some(Date::new(2023, 6, 15).unwrap());
    g.date_added_max = Some(Date::new(2023, 6, 15).unwrap());
    assert_eq!(cat.get_filtered_items(g).unwrap().len(), 1);
}

#[test]
fn test_absent_optional_column_fails_range_criteria() {
    let mut cat = Catalog::open_in_memory().unwrap();
    let mut item = full_item();
    item.age_years = None;
    cat.add_item(&item).unwrap();

    let mut f = ItemFilter::default();
    f.age_years_min = Some(1);
    assert_eq!(cat.get_filtered_items(f).unwrap().len(), 0);
}

#[test]
fn test_assigned_ids_ascend() {
    let mut cat = Catalog::open_in_memory().unwrap();
    let a = cat.add_item(&full_item()).unwrap();
    let b = cat.add_item(&full_item()).unwrap();
    let c = cat.add_item(&full_item()).unwrap();
    assert!(a < b && b < c);
}

#[test]
fn test_error_messages() {
    let e = CatalogError::UnknownField("bogus".to_string());
    assert_eq!(e.message(), "Unknown field: bogus");
    let e = CatalogError::Coercion { field: "working".to_string(), value: "xyz".to_string() };
    assert_eq!(e.message(), "Invalid value 'xyz' for field working");
    let e = CatalogError::NotFound(-7);
    assert_eq!(e.message(), "No item with id -7");
    let e = CatalogError::Validation(vec!["one".to_string(), "two".to_string()]);
    assert_eq!(e.message(), "Validation failed: one; two");
    let e = CatalogError::Storage("disk gone".to_string());
    assert_eq!(e.message(), "Storage error: disk gone");
}

#[test]
fn test_money_render_forms() {
    assert_eq!(fmt_cents(4550), "45.50");
    assert_eq!(fmt_cents(7), "0.07");
    assert_eq!(fmt_cents(0), "0.00");
    assert_eq!(fmt_cents(-4550), "-45.50");
}

#[test]
fn test_age_and_deleted_coercion_forms() {
    let mut cat = Catalog::open_in_memory().unwrap();
    let id = cat.add_item(&full_item()).unwrap();

    // A non-numeric age is a coercion failure.
    let bad = vec![("age_years".to_string(), "ten".to_string())];
    assert!(cat.update_item_fields(id, &bad).is_err());

    // The deleted flag takes only the canonical tokens.
    let bad = vec![("deleted".to_string(), "True".to_string())];
    assert!(cat.update_item_fields(id, &bad).is_err());
    let good = vec![("deleted".to_string(), "true".to_string())];
    cat.update_item_fields(id, &good).unwrap();
    assert_eq!(cat.get_item_by_id(id).unwrap().unwrap().deleted, true);
}

#[test]
fn test_last_updated_is_not_user_settable() {
    let mut cat = Catalog::open_in_memory().unwrap();
    let id = cat.add_item(&full_item()).unwrap();
    let upd = vec![("last_updated".to_string(), "1999-01-01".to_string())];
    let result = cat.update_item_fields(id, &upd);
    assert!(matches!(result, Err(CatalogError::UnknownField(_))));
}

#[test]
fn test_init_db_is_idempotent() {
    let mut cat = Catalog::open_in_memory().unwrap();
    let id = cat.add_item(&full_item()).unwrap();
    cat.init_db().unwrap();
    cat.init_db().unwrap();
    let still_there = cat.get_item_by_id(id).unwrap();
    assert!(still_there.is_some());
}

#[test]
fn test_remaining_criteria_kinds() {
    let mut cat = Catalog::open_in_memory().unwrap();
    cat.add_item(&full_item()).unwrap();

    let mut f = ItemFilter::default();
    f.creator_contains = Some("know".to_string());
    f.provenance_contains = Some("grandmother".to_string());
    f.action = Some(ItemAction::Keep);
    f.last_updated_min = Some(Date::new(2023, 1, 1).unwrap());
    f.last_updated_max = Some(Date::new(2023, 12, 31).unwrap());
    f.date_acquired_min = Some(Date::new(2005, 5, 15).unwrap());
    f.date_acquired_max = Some(Date::new(2005, 5, 15).unwrap());
    f.age_years_max = Some(80);
    f.estimated_value_min = Some(12000);
    f.estimated_value_max = Some(12000);
    assert_eq!(cat.get_filtered_items(f.clone()).unwrap().len(), 1);

    // Tightening any one bound past the stored value empties the result.
    f.age_years_max = Some(79);
    assert_eq!(cat.get_filtered_items(f).unwrap().len(), 0);
}
