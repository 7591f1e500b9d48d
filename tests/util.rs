use oidc_pages::{page_title, to_string_array, value_at_path, JsonValue};

fn s(x: &str) -> String {
    x.to_string()
}

fn path(keys: &[&str]) -> Vec<String> {
    keys.iter().map(|k| k.to_string()).collect()
}

fn sample() -> JsonValue {
    JsonValue::Object(vec![(
        s("first"),
        JsonValue::Object(vec![
            (s("extra_key"), JsonValue::Str(s("extra_value"))),
            (
                s("second"),
                JsonValue::Object(vec![(s("third"), JsonValue::Num(s("123")))]),
            ),
        ]),
    )])
}

#[test]
fn test_page_title() {
    assert_eq!(
        page_title("<title>Hello, World!</title>"),
        Some("Hello, World!".to_string())
    );
    assert_eq!(page_title("<title></title>"), Some("".to_string()));
    assert_eq!(
        page_title("<title>Title Missing Closing Tag"),
        Some("Title Missing Closing Tag".to_string())
    );
}

#[test]
fn test_page_title_err() {
    assert_eq!(page_title(""), None);
}

#[test]
fn test_value_at_path() {
    let json = sample();

    // path exists
    let roles_path = path(&["first", "second", "third"]);
    assert_eq!(
        value_at_path(&json, &roles_path).unwrap(),
        &JsonValue::Num(s("123"))
    );

    // path does not exist
    let roles_path = path(&["first", "third"]);
    assert_eq!(value_at_path(&json, &roles_path), None);

    // path exists, less deep
    let roles_path = path(&["first", "extra_key"]);
    assert_eq!(
        value_at_path(&json, &roles_path).unwrap(),
        &JsonValue::Str(s("extra_value"))
    );

    // no path provided
    let empty_path: Vec<String> = vec![];
    assert_eq!(value_at_path(&json, &empty_path), Some(&json));
}

#[test]
fn value_at_path_missing_second_key() {
    let json = sample();
    assert_eq!(value_at_path(&json, &path(&["first", "missing"])), None);
}

#[test]
fn value_at_path_through_non_object() {
    let json = sample();
    assert_eq!(
        value_at_path(&json, &path(&["first", "extra_key", "deeper"])),
        None
    );
}

#[test]
fn title_of_full_document() {
    assert_eq!(
        page_title("<html><head><title>Docs</title></head><body><title>Other</title></body></html>"),
        Some(s("Docs"))
    );
    assert_eq!(page_title("<html><body>no title</body></html>"), None);
}

#[test]
fn string_array_conversion() {
    let roles = JsonValue::Array(vec![JsonValue::Str(s("docs")), JsonValue::Str(s("wiki"))]);
    assert_eq!(to_string_array(&roles), Some(vec![s("docs"), s("wiki")]));
    let mixed = JsonValue::Array(vec![JsonValue::Str(s("docs")), JsonValue::Num(s("1"))]);
    assert_eq!(to_string_array(&mixed), None);
    assert_eq!(to_string_array(&JsonValue::Str(s("docs"))), None);
    assert_eq!(to_string_array(&JsonValue::Array(vec![])), Some(vec![]));
}
