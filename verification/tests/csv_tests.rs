use collection_catalog::{export_to_csv_string, Date, Item, ItemAction, ItemCategory};

fn sample_item() -> Item {
    Item {
        id: 1,
        name: "Test".to_string(),
        description: "desc".to_string(),
        category: ItemCategory::Book,
        date_added: Date::new(2025, 1, 1).unwrap(),
        action: ItemAction::Keep,
        last_updated: Date::new(2025, 1, 1).unwrap(),
        deleted: false,
        age_years: None,
        date_acquired: None,
        purchase_price: None,
        estimated_value: None,
        creator: None,
        working: None,
        provenance: None,
    }
}

#[test]
fn test_export_to_csv_string() {
    let items = vec![sample_item()];

    let csv_output = export_to_csv_string(&items).expect("Export to string failed");

    // Check that the output contains expected content
    assert!(csv_output.contains("Test")); // Ensure item name is present
    assert!(csv_output.contains("desc")); // Ensure item description is present
    assert!(csv_output.contains("Book")); // Ensure item category is present
}

#[test]
fn test_export_exact_text() {
    let mut item = sample_item();
    item.purchase_price = Some(4500);
    item.working = Some(true);
    let items = vec![item];
    let text = export_to_csv_string(&items).unwrap();
    assert_eq!(
        text,
        "id,name,description,category,action,date_added,last_updated,deleted,age_years,date_acquired,purchase_price,estimated_value,creator,working,provenance\n\
         1,Test,desc,Book,Keep,2025-01-01,2025-01-01,false,,,45.00,,,true,\n"
    );
}

#[test]
fn test_export_quotes_fields_that_need_it() {
    let mut item = sample_item();
    item.name = "a,b".to_string();
    item.description = "he said \"hi\"".to_string();
    let items = vec![item];
    let text = export_to_csv_string(&items).unwrap();
    assert!(text.contains("\"a,b\""));
    assert!(text.contains("\"he said \"\"hi\"\"\""));
}

#[test]
fn test_export_header_only_for_empty_set() {
    let items: Vec<Item> = vec![];
    let text = export_to_csv_string(&items).unwrap();
    assert_eq!(
        text,
        "id,name,description,category,action,date_added,last_updated,deleted,age_years,date_acquired,purchase_price,estimated_value,creator,working,provenance\n"
    );
}
