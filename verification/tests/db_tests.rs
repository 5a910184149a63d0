use collection_catalog::{Catalog, CatalogError, Date, Item, ItemAction, ItemCategory, ItemFilter};

fn make_item() -> Item {
    Item {
        id: 1,
        name: "Valid Name".to_string(),
        description: "Nice item".to_string(),
        category: ItemCategory::Book,
        action: ItemAction::Keep,
        date_added: Date::new(2024, 1, 1).unwrap(),
        last_updated: Date::new(2024, 1, 1).unwrap(),
        age_years: Some(10),
        date_acquired: None,
        purchase_price: Some(10000),
        estimated_value: Some(12000),
        creator: None,
        working: Some(true),
        provenance: None,
        deleted: false,
    }
}

#[test]
fn test_add_and_get_item() {
    let mut cat = Catalog::open_in_memory().unwrap();
    let item = make_item();
    cat.add_item(&item).unwrap();
    let fetched = cat.get_item_by_id(1).unwrap().unwrap();
    assert_eq!(fetched.name, item.name);
}

#[test]
fn test_update_item() {
    let mut cat = Catalog::open_in_memory().unwrap();
    let mut item = make_item();
    cat.add_item(&item).unwrap();

    item.name = "new name".to_string();
    let _ = cat.update_item(&item);

    let fetched = cat.get_item_by_id(1).unwrap().unwrap();
    assert_eq!(fetched.name, "new name".to_string());
}

#[test]
fn test_soft_delete() {
    let mut cat = Catalog::open_in_memory().unwrap();
    let mut item = make_item();
    cat.add_item(&item).unwrap();

    item.id = 2;
    item.name = "item 2".to_string();
    cat.add_item(&item).unwrap();

    item.id = 3;
    item.name = "item 3".to_string();
    cat.add_item(&item).unwrap();

    let _ = cat.soft_delete_item(2);

    let all_items = cat.get_all_items().unwrap();
    assert_eq!(all_items.len(), 2);

    let ids: Vec<i64> = all_items.iter().map(|item| item.id).collect();
    assert!(ids.contains(&1), "Missing item with id 1");
    assert!(!ids.contains(&2), "Contains deleted item with id 2");
    assert!(ids.contains(&3), "Missing item with id 3");
}

#[test]
fn test_filter_by_name_contains() {
    let mut cat = Catalog::open_in_memory().unwrap();
    let item = make_item();
    cat.add_item(&item).unwrap();

    let mut filter = ItemFilter::default();
    filter.name_contains = Some("lid".to_string());

    let results = cat.get_filtered_items(filter).unwrap();
    assert_eq!(results.len(), 1);
    assert_eq!(results[0].name, "Valid Name");
}

#[test]
fn test_filter_by_category() {
    let mut cat = Catalog::open_in_memory().unwrap();
    let item = make_item();
    cat.add_item(&item).unwrap();

    let mut filter = ItemFilter::default();
    filter.category = Some(ItemCategory::Book);

    let results = cat.get_filtered_items(filter).unwrap();
    assert_eq!(results.len(), 1);
    assert_eq!(results[0].name, "Valid Name");
}

#[test]
fn test_filter_by_date_added_min() {
    let mut cat = Catalog::open_in_memory().unwrap();
    let item = make_item();
    cat.add_item(&item).unwrap();

    let mut filter = ItemFilter::default();
    filter.date_added_min = Some(Date::new(2021, 1, 1).unwrap());

    let results = cat.get_filtered_items(filter).unwrap();
    assert_eq!(results.len(), 1);
}

#[test]
fn test_filter_by_date_added_min_not_in_range() {
    let mut cat = Catalog::open_in_memory().unwrap();
    let item = make_item();
    cat.add_item(&item).unwrap();

    let mut filter = ItemFilter::default();
    filter.date_added_min = Some(Date::new(2025, 1, 1).unwrap());

    let results = cat.get_filtered_items(filter).unwrap();
    assert_eq!(results.len(), 0);
}

#[test]
fn test_filter_by_multiple_fields() {
    let mut cat = Catalog::open_in_memory().unwrap();
    let item = make_item();
    cat.add_item(&item).unwrap();

    let mut filter = ItemFilter::default();
    filter.name_contains = Some("Valid".to_string());
    filter.description_contains = Some("Nice".to_string());
    filter.category = Some(ItemCategory::Book);
    filter.date_added_min = Some(Date::new(2020, 1, 1).unwrap());
    filter.working = Some(true);
    filter.purchase_price_min = Some(5000);
    filter.purchase_price_max = Some(15000);

    let results = cat.get_filtered_items(filter).unwrap();
    assert_eq!(results.len(), 1);
}

#[test]
fn test_filter_by_multiple_fields_missing_one() {
    let mut cat = Catalog::open_in_memory().unwrap();
    let item = make_item();
    cat.add_item(&item).unwrap();

    let mut filter = ItemFilter::default();
    filter.name_contains = Some("Valid".to_string());
    filter.description_contains = Some("Nice".to_string());
    filter.category = Some(ItemCategory::Book);
    filter.date_added_min = Some(Date::new(2020, 1, 1).unwrap());
    // This one should exclude the item
    filter.working = Some(false);
    filter.purchase_price_min = Some(5000);
    filter.purchase_price_max = Some(15000);

    let results = cat.get_filtered_items(filter).unwrap();
    assert_eq!(results.len(), 0);
}

#[test]
fn test_update_item_fields_success() {
    let mut cat = Catalog::open_in_memory().unwrap();
    let item = make_item();
    let added_id = cat.add_item(&item).unwrap();

    let updates = vec![
        ("name".to_string(), "Updated Name".to_string()),
        ("description".to_string(), "Updated Description".to_string()),
        ("category".to_string(), "Book".to_string()),
        ("working".to_string(), "false".to_string()),
    ];

    cat.update_item_fields(added_id, &updates).unwrap();

    let updated = cat.get_item_by_id(added_id).unwrap().unwrap();

    assert_eq!(updated.name, "Updated Name");
    assert_eq!(updated.description, "Updated Description");
    assert_eq!(updated.category, ItemCategory::Book);
    assert_eq!(updated.working, Some(false));

    // Verify last_updated changed
    assert_ne!(updated.last_updated, item.last_updated);
}

#[test]
fn test_update_item_fields_invalid_field() {
    let mut cat = Catalog::open_in_memory().unwrap();
    let item = make_item();
    let added_id = cat.add_item(&item).unwrap();

    let updates = vec![("not_a_field".to_string(), "oops".to_string())];

    let result = cat.update_item_fields(added_id, &updates);

    assert!(result.is_err());
    let err_msg = result.unwrap_err().message();
    assert!(err_msg.contains("Unknown field"));
}

#[test]
fn test_update_unknown_field_leaves_record_unchanged() {
    let mut cat = Catalog::open_in_memory().unwrap();
    let item = make_item();
    let id = cat.add_item(&item).unwrap();

    let updates = vec![("bogus".to_string(), "X".to_string())];
    let result = cat.update_item_fields(id, &updates);
    assert!(matches!(result, Err(CatalogError::UnknownField(_))));

    let stored = cat.get_item_by_id(id).unwrap().unwrap();
    assert_eq!(stored.name, item.name);
    assert_eq!(stored.description, item.description);
    assert_eq!(stored.category, item.category);
    assert_eq!(stored.action, item.action);
    assert_eq!(stored.date_added, item.date_added);
    assert_eq!(stored.last_updated, item.last_updated);
    assert_eq!(stored.deleted, item.deleted);
    assert_eq!(stored.age_years, item.age_years);
    assert_eq!(stored.date_acquired, item.date_acquired);
    assert_eq!(stored.purchase_price, item.purchase_price);
    assert_eq!(stored.estimated_value, item.estimated_value);
    assert_eq!(stored.creator, item.creator);
    assert_eq!(stored.working, item.working);
    assert_eq!(stored.provenance, item.provenance);
}

#[test]
fn test_update_bad_coercion_leaves_record_unchanged() {
    let mut cat = Catalog::open_in_memory().unwrap();
    let item = make_item();
    let id = cat.add_item(&item).unwrap();

    let updates = vec![("working".to_string(), "notabool".to_string())];
    let result = cat.update_item_fields(id, &updates);
    match result {
        Err(CatalogError::Coercion { field, value }) => {
            assert_eq!(field, "working");
            assert_eq!(value, "notabool");
        },
        other => panic!("expected a coercion error, got {:?}", other),
    }

    let stored = cat.get_item_by_id(id).unwrap().unwrap();
    assert_eq!(stored.name, item.name);
    assert_eq!(stored.working, item.working);
    assert_eq!(stored.last_updated, item.last_updated);
}

#[test]
fn test_update_missing_id_reports_not_found() {
    let mut cat = Catalog::open_in_memory().unwrap();
    let updates = vec![("name".to_string(), "X".to_string())];
    let result = cat.update_item_fields(42, &updates);
    assert!(matches!(result, Err(CatalogError::NotFound(42))));
}

#[test]
fn test_update_rejecting_merged_record_leaves_it_unchanged() {
    let mut cat = Catalog::open_in_memory().unwrap();
    let item = make_item();
    let id = cat.add_item(&item).unwrap();

    let updates = vec![("name".to_string(), "   ".to_string())];
    let result = cat.update_item_fields(id, &updates);
    assert!(matches!(result, Err(CatalogError::Validation(_))));

    let stored = cat.get_item_by_id(id).unwrap().unwrap();
    assert_eq!(stored.name, item.name);
    assert_eq!(stored.last_updated, item.last_updated);
}

#[test]
fn test_add_invalid_item_is_rejected_with_all_violations() {
    let mut cat = Catalog::open_in_memory().unwrap();
    let mut item = make_item();
    item.name = " ".to_string();
    item.estimated_value = Some(-5);
    match cat.add_item(&item) {
        Err(CatalogError::Validation(errs)) => {
            assert_eq!(
                errs,
                vec![
                    "Name cannot be empty.".to_string(),
                    "Estimated value cannot be negative.".to_string(),
                ]
            );
        },
        other => panic!("expected a validation error, got {:?}", other),
    }
    assert_eq!(cat.get_all_items().unwrap().len(), 0);
}

#[test]
fn test_open_bad_path_reports_storage_error() {
    let result = Catalog::open("/nonexistent-dir-for-catalog/items.db");
    assert!(matches!(result, Err(CatalogError::Storage(_))));
}
