use lake_ingest::config::{parse_setting, Config, MissingSetting};

fn some(text: &str) -> Option<String> {
    Some(text.to_string())
}

#[test]
fn defaults_apply_where_nothing_is_given() {
    let config =
        Config::from_settings(some("proj"), some("lake"), None, some("http://cat"), None, None, None)
            .unwrap();
    assert_eq!(config.gcp_project, "proj");
    assert_eq!(config.gcs_bucket, "lake");
    assert_eq!(config.gcs_prefix, "warehouse");
    assert_eq!(config.catalog_uri, "http://cat");
    assert_eq!(config.table_ns, "farm");
    assert_eq!(config.table_orders, "orders");
    assert_eq!(config.batch_max_rows, 25000);
    assert_eq!(config.batch_max_seconds, 30);
}

#[test]
fn given_settings_are_kept() {
    let config = Config::from_settings(
        some("proj"),
        some("lake"),
        some("raw"),
        some("http://cat"),
        some("lab"),
        some("500"),
        some("5"),
    )
    .unwrap();
    assert_eq!(config.gcs_prefix, "raw");
    assert_eq!(config.table_ns, "lab");
    assert_eq!(config.batch_max_rows, 500);
    assert_eq!(config.batch_max_seconds, 5);
}

#[test]
fn unreadable_limits_fall_back_to_the_defaults() {
    let config = Config::from_settings(
        some("proj"),
        some("lake"),
        None,
        some("http://cat"),
        None,
        some("many"),
        some("-3"),
    )
    .unwrap();
    assert_eq!(config.batch_max_rows, 25000);
    assert_eq!(config.batch_max_seconds, 30);
}

#[test]
fn the_first_missing_required_setting_is_reported() {
    assert_eq!(
        Config::from_settings(None, None, None, None, None, None, None).unwrap_err(),
        MissingSetting::GcpProject
    );
    assert_eq!(
        Config::from_settings(some("p"), None, None, None, None, None, None).unwrap_err(),
        MissingSetting::GcsBucket
    );
    assert_eq!(
        Config::from_settings(some("p"), some("b"), None, None, None, None, None).unwrap_err(),
        MissingSetting::CatalogUri
    );
}

#[test]
fn settings_parse_as_std_parses_unsigned_integers() {
    for text in [
        "0", "7", "42", "007", "+5", "25000", "18446744073709551615", "18446744073709551616",
        "99999999999999999999999", "", "+", "-1", " 1", "1 ", "1_000", "0x10", "1.5", "١٢", "++1",
        "1+", "+-1",
    ] {
        assert_eq!(parse_setting(text), text.parse::<u64>().ok(), "for {:?}", text);
    }
}

#[test]
fn settings_have_exact_values() {
    assert_eq!(parse_setting("30"), Some(30));
    assert_eq!(parse_setting("+30"), Some(30));
    assert_eq!(parse_setting("18446744073709551615"), Some(u64::MAX));
    assert_eq!(parse_setting("18446744073709551616"), None);
    assert_eq!(parse_setting("thirty"), None);
}
