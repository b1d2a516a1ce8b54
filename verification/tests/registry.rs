use lake_ingest::error::PipelineError;
use lake_ingest::schema::{descriptor, EntityType, Source};

#[test]
fn collection_names_round_trip() {
    for (entity, name) in [
        (EntityType::Order, "orders"),
        (EntityType::Variety, "varieties"),
        (EntityType::VarietyInventory, "variety_inventory"),
        (EntityType::Material, "materials"),
        (EntityType::Batch, "batches"),
        (EntityType::InventoryTransaction, "inventory_transactions"),
    ] {
        assert_eq!(entity.collection_name(), name);
        assert_eq!(EntityType::from_collection(name), Ok(entity));
    }
}

#[test]
fn an_unknown_collection_is_an_error() {
    assert_eq!(EntityType::from_collection("invoices"), Err(PipelineError::UnknownEntity));
    assert_eq!(EntityType::from_collection(""), Err(PipelineError::UnknownEntity));
    assert_eq!(EntityType::from_collection("Orders"), Err(PipelineError::UnknownEntity));
    assert_eq!(EntityType::from_collection("orders "), Err(PipelineError::UnknownEntity));
}

#[test]
fn order_descriptor_lists_primary_names_before_aliases() {
    let rules = descriptor(EntityType::Order);
    assert_eq!(rules.len(), 6);
    match &rules[2].source {
        Source::Number(keys) => assert_eq!(keys, &vec!["quantity_in_kg", "quantityInKg"]),
        other => panic!("unexpected source {:?}", other),
    }
    match &rules[3].source {
        Source::Text(keys) => assert_eq!(keys, &vec!["delivery_date", "deliveryDate"]),
        other => panic!("unexpected source {:?}", other),
    }
    match &rules[0].source {
        Source::Text(keys) => assert_eq!(keys, &vec!["id"]),
        other => panic!("unexpected source {:?}", other),
    }
    assert!(matches!(rules[5].source, Source::IngestClock));
}

#[test]
fn every_descriptor_ends_with_the_ingestion_stamp() {
    for entity in [
        EntityType::Order,
        EntityType::Variety,
        EntityType::VarietyInventory,
        EntityType::Material,
        EntityType::Batch,
        EntityType::InventoryTransaction,
    ] {
        let rules = descriptor(entity);
        let last = rules.last().unwrap();
        assert_eq!(last.name, "_ingest_ts_ms");
        assert!(matches!(last.source, Source::IngestClock));
        for rule in &rules[..rules.len() - 1] {
            assert!(!matches!(rule.source, Source::IngestClock));
        }
    }
}
