use mdm_config_reader::{
    coerce_all, coerce_one, get_mdm_settings_impl, get_settings, i64_to_decimal, u64_to_decimal,
    Entry, ResultMap, SettingsContainer, SettingsSource, TypedValue,
};

fn entry(key: &str, value: TypedValue) -> Entry {
    Entry { key: Some(key.to_string()), value }
}

fn pairs(map: &ResultMap) -> Vec<(String, String)> {
    map.entries.clone()
}

fn expected(items: &[(&str, &str)]) -> Vec<(String, String)> {
    items
        .iter()
        .map(|(k, v)| (k.to_string(), v.to_string()))
        .collect()
}

#[test]
fn decimal_rendering_matches_std_formatting() {
    for n in [0u64, 1, 9, 10, 99, 100, 12345, u64::MAX] {
        assert_eq!(u64_to_decimal(n), n.to_string());
    }
    for i in [0i64, 7, -7, 10, -10, 12345, -12345, i64::MIN, i64::MAX] {
        assert_eq!(i64_to_decimal(i), i.to_string());
    }
}

#[test]
fn coerce_signed_integers_render_decimal() {
    assert_eq!(coerce_one(&TypedValue::Int16(0)), Some("0".to_string()));
    assert_eq!(coerce_one(&TypedValue::Int16(-7)), Some("-7".to_string()));
    assert_eq!(coerce_one(&TypedValue::Int32(5)), Some("5".to_string()));
    assert_eq!(
        coerce_one(&TypedValue::Int32(-2147483648)),
        Some("-2147483648".to_string())
    );
    assert_eq!(
        coerce_one(&TypedValue::Int64(i64::MIN)),
        Some("-9223372036854775808".to_string())
    );
    assert_eq!(
        coerce_one(&TypedValue::Int64(i64::MAX)),
        Some("9223372036854775807".to_string())
    );
}

#[test]
fn coerce_unsigned_integers_render_decimal() {
    assert_eq!(coerce_one(&TypedValue::UInt16(0)), Some("0".to_string()));
    assert_eq!(
        coerce_one(&TypedValue::UInt16(65535)),
        Some("65535".to_string())
    );
    assert_eq!(
        coerce_one(&TypedValue::UInt32(4294967295)),
        Some("4294967295".to_string())
    );
    assert_eq!(
        coerce_one(&TypedValue::UInt64(u64::MAX)),
        Some("18446744073709551615".to_string())
    );
    assert_eq!(
        coerce_one(&TypedValue::UInt64(1000000)),
        Some("1000000".to_string())
    );
}

#[test]
fn coerce_boolean_renders_lowercase_literals() {
    assert_eq!(
        coerce_one(&TypedValue::Boolean(true)),
        Some("true".to_string())
    );
    assert_eq!(
        coerce_one(&TypedValue::Boolean(false)),
        Some("false".to_string())
    );
}

#[test]
fn coerce_text_passes_through_unchanged() {
    assert_eq!(
        coerce_one(&TypedValue::Text("http://proxy.local".to_string())),
        Some("http://proxy.local".to_string())
    );
    assert_eq!(
        coerce_one(&TypedValue::Text(String::new())),
        Some(String::new())
    );
}

#[test]
fn coerce_unsupported_kind_yields_nothing() {
    assert_eq!(coerce_one(&TypedValue::Other), None);
}

#[test]
fn no_container_yields_empty_map() {
    let result = get_settings(SettingsSource::Supported(None));
    assert!(pairs(&result).is_empty());
    assert_eq!(result.len(), 0);
    assert!(result.is_empty());
}

#[test]
fn mixed_container_yields_coerced_pairs() {
    let container = SettingsContainer {
        entries: vec![
            entry("proxyUrl", TypedValue::Text("http://proxy.local".to_string())),
            entry("retryCount", TypedValue::Int32(5)),
            entry("enabled", TypedValue::Boolean(true)),
        ],
    };
    let result = get_settings(SettingsSource::Supported(Some(container)));
    assert_eq!(
        pairs(&result),
        expected(&[
            ("proxyUrl", "http://proxy.local"),
            ("retryCount", "5"),
            ("enabled", "true"),
        ])
    );
}

#[test]
fn unsupported_entry_is_dropped_without_placeholder() {
    let container = SettingsContainer {
        entries: vec![
            entry("label", TypedValue::Text("prod".to_string())),
            entry("schedule", TypedValue::Other),
        ],
    };
    let result = get_settings(SettingsSource::Supported(Some(container)));
    assert_eq!(pairs(&result), expected(&[("label", "prod")]));
}

#[test]
fn unsupported_platform_yields_empty_map() {
    let result = get_settings(SettingsSource::Unsupported);
    assert!(pairs(&result).is_empty());
}

#[test]
fn negative_signed_entry_renders_with_sign() {
    let container = SettingsContainer {
        entries: vec![entry("offset", TypedValue::Int16(-7))],
    };
    let result = get_settings(SettingsSource::Supported(Some(container)));
    assert_eq!(pairs(&result), expected(&[("offset", "-7")]));
}

#[test]
fn supported_entries_counted_exactly_among_unsupported() {
    let container = SettingsContainer {
        entries: vec![
            entry("a", TypedValue::Other),
            entry("b", TypedValue::UInt32(1)),
            entry("c", TypedValue::Other),
            entry("d", TypedValue::Boolean(false)),
            entry("e", TypedValue::Other),
            entry("f", TypedValue::Int64(-1)),
        ],
    };
    let result = coerce_all(&container);
    assert_eq!(result.len(), 3);
    assert_eq!(
        pairs(&result),
        expected(&[("b", "1"), ("d", "false"), ("f", "-1")])
    );
}

#[test]
fn unreadable_key_is_dropped() {
    let container = SettingsContainer {
        entries: vec![
            Entry { key: None, value: TypedValue::Boolean(true) },
            entry("kept", TypedValue::UInt16(9)),
        ],
    };
    let result = coerce_all(&container);
    assert_eq!(pairs(&result), expected(&[("kept", "9")]));
}

#[test]
fn repeated_reads_of_unchanged_store_agree() {
    let make = || SettingsContainer {
        entries: vec![
            entry("proxyUrl", TypedValue::Text("http://proxy.local".to_string())),
            entry("retryCount", TypedValue::Int32(5)),
            entry("skipped", TypedValue::Other),
        ],
    };
    let first = get_settings(SettingsSource::Supported(Some(make())));
    let second = get_settings(SettingsSource::Supported(Some(make())));
    assert_eq!(pairs(&first), pairs(&second));
}

#[test]
fn located_pipeline_matches_facade() {
    let make = || {
        Some(SettingsContainer {
            entries: vec![entry("enabled", TypedValue::Boolean(true))],
        })
    };
    let via_impl = get_mdm_settings_impl(make());
    let via_facade = get_settings(SettingsSource::Supported(make()));
    assert_eq!(pairs(&via_impl), pairs(&via_facade));
    assert_eq!(pairs(&via_impl), expected(&[("enabled", "true")]));
}

#[test]
fn empty_container_yields_empty_map() {
    let result = get_mdm_settings_impl(Some(SettingsContainer { entries: vec![] }));
    assert!(result.is_empty());
}

#[test]
fn later_duplicate_key_stays_last_in_order() {
    let container = SettingsContainer {
        entries: vec![
            entry("key", TypedValue::Int32(1)),
            entry("key", TypedValue::Int32(2)),
        ],
    };
    let result = coerce_all(&container);
    assert_eq!(pairs(&result), expected(&[("key", "1"), ("key", "2")]));
    let flattened: std::collections::HashMap<String, String> =
        result.entries.into_iter().collect();
    assert_eq!(flattened.get("key"), Some(&"2".to_string()));
}
