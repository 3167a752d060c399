use config_store::codec::{check_record, decode_config, encode_config, RawRecord};
use config_store::config::{AppConfig, ConfigError};

fn record(db_path: &str, low_load: i32, medium_load: i32, high_load: i32) -> AppConfig {
    AppConfig { db_path: db_path.to_string(), low_load, medium_load, high_load }
}

fn raw(db_path: Option<&str>, low: Option<i64>, medium: Option<i64>, high: Option<i64>) -> RawRecord {
    RawRecord {
        db_path: db_path.map(|p| p.to_string()),
        low_load: low,
        medium_load: medium,
        high_load: high,
    }
}

#[test]
fn decode_reads_a_record() {
    let text = "{\"db_path\":\"x.db\",\"low_load\":1,\"medium_load\":5,\"high_load\":10}";
    assert_eq!(decode_config(text), Ok(record("x.db", 1, 5, 10)));
}

#[test]
fn decode_reads_members_in_any_order_and_layout() {
    let text = "\n{ \"high_load\" : 10,\n  \"db_path\" : \"x.db\",\n  \"medium_load\" : 5,\n  \"low_load\" : 1 }\n";
    assert_eq!(decode_config(text), Ok(record("x.db", 1, 5, 10)));
}

#[test]
fn decode_passes_over_other_members() {
    let text = "{\"db_path\":\"x.db\",\"low_load\":1,\"medium_load\":5,\"high_load\":10,\"note\":[1,2]}";
    assert_eq!(decode_config(text), Ok(record("x.db", 1, 5, 10)));
}

#[test]
fn decode_reads_escapes_in_the_path() {
    let text = "{\"db_path\":\"a\\\\b\\u0041\\n\",\"low_load\":0,\"medium_load\":0,\"high_load\":0}";
    assert_eq!(decode_config(text), Ok(record("a\\bA\n", 0, 0, 0)));
}

#[test]
fn decode_without_high_load_is_parse_error() {
    let text = "{\"db_path\":\"x.db\",\"low_load\":1,\"medium_load\":5}";
    assert_eq!(decode_config(text), Err(ConfigError::ParseError));
}

#[test]
fn decode_without_any_one_member_is_parse_error() {
    assert_eq!(
        decode_config("{\"low_load\":1,\"medium_load\":5,\"high_load\":10}"),
        Err(ConfigError::ParseError)
    );
    assert_eq!(
        decode_config("{\"db_path\":\"x.db\",\"medium_load\":5,\"high_load\":10}"),
        Err(ConfigError::ParseError)
    );
    assert_eq!(
        decode_config("{\"db_path\":\"x.db\",\"low_load\":1,\"high_load\":10}"),
        Err(ConfigError::ParseError)
    );
    assert_eq!(decode_config("{}"), Err(ConfigError::ParseError));
}

#[test]
fn decode_with_a_member_of_another_type_is_parse_error() {
    assert_eq!(
        decode_config("{\"db_path\":7,\"low_load\":1,\"medium_load\":5,\"high_load\":10}"),
        Err(ConfigError::ParseError)
    );
    assert_eq!(
        decode_config("{\"db_path\":null,\"low_load\":1,\"medium_load\":5,\"high_load\":10}"),
        Err(ConfigError::ParseError)
    );
    assert_eq!(
        decode_config("{\"db_path\":\"x.db\",\"low_load\":\"1\",\"medium_load\":5,\"high_load\":10}"),
        Err(ConfigError::ParseError)
    );
    assert_eq!(
        decode_config("{\"db_path\":\"x.db\",\"low_load\":1,\"medium_load\":5.5,\"high_load\":10}"),
        Err(ConfigError::ParseError)
    );
    assert_eq!(
        decode_config("{\"db_path\":\"x.db\",\"low_load\":1,\"medium_load\":5,\"high_load\":10.0}"),
        Err(ConfigError::ParseError)
    );
    assert_eq!(
        decode_config("{\"db_path\":\"x.db\",\"low_load\":1,\"medium_load\":5,\"high_load\":true}"),
        Err(ConfigError::ParseError)
    );
}

#[test]
fn decode_with_a_threshold_out_of_range_is_parse_error() {
    assert_eq!(
        decode_config("{\"db_path\":\"x.db\",\"low_load\":2147483648,\"medium_load\":5,\"high_load\":10}"),
        Err(ConfigError::ParseError)
    );
    assert_eq!(
        decode_config("{\"db_path\":\"x.db\",\"low_load\":1,\"medium_load\":-2147483649,\"high_load\":10}"),
        Err(ConfigError::ParseError)
    );
    assert_eq!(
        decode_config("{\"db_path\":\"x.db\",\"low_load\":1,\"medium_load\":5,\"high_load\":18446744073709551615}"),
        Err(ConfigError::ParseError)
    );
}

#[test]
fn decode_reads_the_extreme_thresholds() {
    let text = "{\"db_path\":\"\",\"low_load\":-2147483648,\"medium_load\":0,\"high_load\":2147483647}";
    assert_eq!(decode_config(text), Ok(record("", i32::MIN, 0, i32::MAX)));
}

#[test]
fn decode_of_what_is_no_object_is_parse_error() {
    assert_eq!(decode_config("[\"x.db\",1,5,10]"), Err(ConfigError::ParseError));
    assert_eq!(decode_config("\"x.db\""), Err(ConfigError::ParseError));
    assert_eq!(decode_config("null"), Err(ConfigError::ParseError));
    assert_eq!(decode_config("12"), Err(ConfigError::ParseError));
}

#[test]
fn decode_of_what_is_no_json_is_parse_error() {
    assert_eq!(decode_config(""), Err(ConfigError::ParseError));
    assert_eq!(decode_config("   "), Err(ConfigError::ParseError));
    assert_eq!(decode_config("{\"db_path\":\"x.db\""), Err(ConfigError::ParseError));
    assert_eq!(
        decode_config("{\"db_path\":\"x.db\",\"low_load\":1,\"medium_load\":5,\"high_load\":10} tail"),
        Err(ConfigError::ParseError)
    );
    assert_eq!(decode_config("db_path = x.db"), Err(ConfigError::ParseError));
}

#[test]
fn encode_writes_the_four_members() {
    let text = encode_config(&record("x.db", 1, 5, 10));
    let value: serde_json::Value = serde_json::from_str(&text).unwrap();
    let object = value.as_object().unwrap();
    assert_eq!(object.len(), 4);
    assert_eq!(object["db_path"], serde_json::Value::from("x.db"));
    assert_eq!(object["low_load"], serde_json::Value::from(1));
    assert_eq!(object["medium_load"], serde_json::Value::from(5));
    assert_eq!(object["high_load"], serde_json::Value::from(10));
}

#[test]
fn encode_writes_compact_text() {
    let text = encode_config(&record("x.db", 1, 5, 10));
    assert!(!text.contains(' '));
    assert!(!text.contains('\n'));
    assert!(text.starts_with('{'));
    assert!(text.ends_with('}'));
    assert!(text.contains("\"db_path\":\"x.db\""));
    assert!(text.contains("\"low_load\":1"));
    assert!(text.contains("\"medium_load\":5"));
    assert!(text.contains("\"high_load\":10"));
}

#[test]
fn encode_is_not_the_identity_on_the_path() {
    let text = encode_config(&record("x.db", 1, 5, 10));
    assert_ne!(text, "x.db");
}

#[test]
fn encode_then_decode_gives_the_record_back() {
    let config = record("data/\"app\".db", -3, 0, 2147483647);
    assert_eq!(decode_config(&encode_config(&config)), Ok(config));
}

#[test]
fn check_accepts_a_full_record() {
    assert_eq!(
        check_record(raw(Some("x.db"), Some(1), Some(5), Some(10))),
        Ok(record("x.db", 1, 5, 10))
    );
    assert_eq!(
        check_record(raw(Some(""), Some(-2147483648), Some(0), Some(2147483647))),
        Ok(record("", i32::MIN, 0, i32::MAX))
    );
}

#[test]
fn check_rejects_a_missing_member() {
    assert_eq!(check_record(raw(None, Some(1), Some(5), Some(10))), Err(ConfigError::ParseError));
    assert_eq!(check_record(raw(Some("x.db"), None, Some(5), Some(10))), Err(ConfigError::ParseError));
    assert_eq!(check_record(raw(Some("x.db"), Some(1), None, Some(10))), Err(ConfigError::ParseError));
    assert_eq!(check_record(raw(Some("x.db"), Some(1), Some(5), None)), Err(ConfigError::ParseError));
    assert_eq!(check_record(raw(None, None, None, None)), Err(ConfigError::ParseError));
}

#[test]
fn check_rejects_a_threshold_out_of_range() {
    assert_eq!(
        check_record(raw(Some("x.db"), Some(2147483648), Some(5), Some(10))),
        Err(ConfigError::ParseError)
    );
    assert_eq!(
        check_record(raw(Some("x.db"), Some(1), Some(-2147483649), Some(10))),
        Err(ConfigError::ParseError)
    );
    assert_eq!(
        check_record(raw(Some("x.db"), Some(1), Some(5), Some(i64::MAX))),
        Err(ConfigError::ParseError)
    );
    assert_eq!(
        check_record(raw(Some("x.db"), Some(i64::MIN), Some(5), Some(10))),
        Err(ConfigError::ParseError)
    );
}

#[test]
fn with_db_path_replaces_only_the_path() {
    let changed = record("x.db", 1, 5, 10).with_db_path("y.db".to_string());
    assert_eq!(changed, record("y.db", 1, 5, 10));
}
