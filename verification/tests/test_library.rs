use cdumay_yaml::convert_yaml_result;
use cdumay_yaml::convert_yaml_result_with_message;
use cdumay_yaml::ContextMap;
use cdumay_yaml::ContextValue;
use cdumay_yaml::YamlErrorConverter;

fn parse_failure(input: &str) -> serde_yaml::Error {
    serde_yaml::from_str::<serde_yaml::Value>(input).unwrap_err()
}

#[test]
fn kind_is_fixed_whatever_the_context() {
    let err = parse_failure("invalid: yaml: :");
    let mut context = ContextMap::new();
    context.insert("anything".to_string(), ContextValue::Int(-7));
    let converted = YamlErrorConverter::convert_error(&err, None, context);
    assert_eq!(converted.status(), 400);
    assert_eq!(converted.kind(), "Invalid YAML data");
    assert_eq!(converted.code(), "YAML-00001");

    let err2 = parse_failure("---\ninvalid_yaml: [unterminated");
    let converted2 = YamlErrorConverter::convert_error(&err2, Some("boom".to_string()), ContextMap::new());
    assert_eq!(converted2.status(), 400);
    assert_eq!(converted2.kind(), "Invalid YAML data");
    assert_eq!(converted2.code(), "YAML-00001");
}

#[test]
fn supplied_message_is_kept_exactly() {
    let err = parse_failure("invalid: yaml: :");
    let converted = YamlErrorConverter::convert_error(&err, Some("Test error".to_string()), ContextMap::new());
    assert_eq!(converted.message(), "Test error");
}

#[test]
fn default_message_is_the_raw_rendering() {
    let err = parse_failure("---\ninvalid_yaml: [unterminated");
    let raw_text = err.to_string();
    let converted = YamlErrorConverter::convert_error(&err, None, ContextMap::new());
    assert_eq!(converted.message(), &raw_text);
    assert!(!raw_text.is_empty());
}

#[test]
fn origin_records_the_raw_rendering() {
    let err = parse_failure("invalid: yaml: :");
    let raw_text = err.to_string();
    let converted = YamlErrorConverter::convert_error(&err, Some("custom".to_string()), ContextMap::new());
    let details = converted.details();
    assert_eq!(details.len(), 1);
    match details.get("origin") {
        Some(ContextValue::Text(origin)) => assert_eq!(origin, &raw_text),
        _ => panic!("origin entry missing or not text"),
    }
}

#[test]
fn empty_context_and_no_message_gives_empty_details() {
    let err = parse_failure("invalid: yaml: :");
    let converted = YamlErrorConverter::convert_error(&err, None, ContextMap::new());
    assert!(converted.details().is_empty());
    assert_eq!(converted.details().len(), 0);
}

#[test]
fn direct_convert_keeps_message_and_details_untouched() {
    let err = parse_failure("invalid: yaml: :");
    let mut context = ContextMap::new();
    context.insert("file".to_string(), ContextValue::Text("config.yaml".to_string()));
    let converted = YamlErrorConverter::convert(&err, "plain".to_string(), context);
    assert_eq!(converted.message(), "plain");
    assert_eq!(converted.details().len(), 1);
    assert!(converted.details().contains_key("file"));
    assert!(!converted.details().contains_key("origin"));
}

#[test]
fn conversion_is_idempotent() {
    let err = parse_failure("---\ninvalid_yaml: [unterminated");
    let mut context1 = ContextMap::new();
    context1.insert("test".to_string(), ContextValue::Text("value".to_string()));
    let mut context2 = ContextMap::new();
    context2.insert("test".to_string(), ContextValue::Text("value".to_string()));
    let first = YamlErrorConverter::convert_error(&err, Some("same".to_string()), context1);
    let second = YamlErrorConverter::convert_error(&err, Some("same".to_string()), context2);
    assert_eq!(first.code(), second.code());
    assert_eq!(first.status(), second.status());
    assert_eq!(first.kind(), second.kind());
    assert_eq!(first.message(), second.message());
    assert_eq!(first.details().len(), second.details().len());
    assert!(second.details().contains_key("test"));
    assert!(second.details().contains_key("origin"));
    match (first.details().get("origin"), second.details().get("origin")) {
        (Some(ContextValue::Text(a)), Some(ContextValue::Text(b))) => assert_eq!(a, b),
        _ => panic!("origin entries missing or not text"),
    }
}

#[test]
fn success_value_passes_through_untouched() {
    let result = serde_yaml::from_str::<serde_yaml::Value>("key: value");
    let expected = serde_yaml::from_str::<serde_yaml::Value>("key: value").unwrap();
    let converted = convert_yaml_result(result);
    assert_eq!(converted.unwrap(), expected);
}

#[test]
fn failure_path_of_result_conversion_uses_the_message() {
    let result = serde_yaml::from_str::<serde_yaml::Value>("invalid: yaml: :");
    let mut context = ContextMap::new();
    context.insert("test".to_string(), ContextValue::Bool(true));
    let converted = convert_yaml_result_with_message(result, context, "wrapped".to_string());
    let err = converted.unwrap_err();
    assert_eq!(err.message(), "wrapped");
    assert_eq!(err.status(), 400);
    assert!(err.details().contains_key("test"));
    assert!(err.details().contains_key("origin"));
}

#[test]
fn context_map_insert_replaces_an_existing_key() {
    let mut map = ContextMap::new();
    assert!(map.is_empty());
    map.insert("key".to_string(), ContextValue::Int(1));
    map.insert("key".to_string(), ContextValue::Int(2));
    assert_eq!(map.len(), 1);
    match map.get("key") {
        Some(ContextValue::Int(i)) => assert_eq!(*i, 2),
        _ => panic!("key missing or not an integer"),
    }
    assert!(map.get("other").is_none());
    assert!(!map.contains_key("other"));
}

#[test]
fn context_map_holds_structured_values() {
    let mut map = ContextMap::new();
    map.insert("null".to_string(), ContextValue::Null);
    map.insert("flag".to_string(), ContextValue::Bool(false));
    map.insert("count".to_string(), ContextValue::UInt(3));
    map.insert(
        "list".to_string(),
        ContextValue::List(vec![ContextValue::Int(1), ContextValue::Text("two".to_string())]),
    );
    map.insert(
        "nested".to_string(),
        ContextValue::Mapping(vec![("inner".to_string(), ContextValue::Bool(true))]),
    );
    assert_eq!(map.len(), 5);
    assert!(map.contains_key("nested"));
    match map.get("list") {
        Some(ContextValue::List(items)) => assert_eq!(items.len(), 2),
        _ => panic!("list missing or not a list"),
    }
}

#[test]
fn context_map_keeps_first_insertion_order() {
    let mut map = ContextMap::new();
    map.insert("b".to_string(), ContextValue::Int(1));
    map.insert("a".to_string(), ContextValue::Int(2));
    map.insert("b".to_string(), ContextValue::Int(3));
    let entries = map.entries();
    assert_eq!(entries.len(), 2);
    assert_eq!(entries[0].0, "b");
    assert_eq!(entries[1].0, "a");
    match &entries[0].1 {
        ContextValue::Int(i) => assert_eq!(*i, 3),
        _ => panic!("first entry is not an integer"),
    }
}
