use hal9000::json::{text_eq, Json, JsonNumber};

fn obj(entries: Vec<(&str, Json)>) -> Json {
    Json::Object(entries.into_iter().map(|(k, v)| (k.to_string(), v)).collect())
}

#[test]
fn member_lookup_takes_the_first_match() {
    let doc = obj(vec![
        ("a", Json::Number(JsonNumber::PosInt(1))),
        ("b", Json::Bool(true)),
        ("a", Json::Number(JsonNumber::PosInt(2))),
    ]);
    assert!(matches!(doc.get("a"), Some(Json::Number(JsonNumber::PosInt(1)))));
    assert!(matches!(doc.get("b"), Some(Json::Bool(true))));
    assert!(doc.get("c").is_none());
    assert!(Json::Array(vec![]).get("a").is_none());
}

#[test]
fn integers_read_as_serde_json_reads_them() {
    assert_eq!(Json::Number(JsonNumber::PosInt(u64::MAX)).as_u64(), Some(u64::MAX));
    assert_eq!(Json::Number(JsonNumber::PosInt(u64::MAX)).as_i64(), None);
    assert_eq!(Json::Number(JsonNumber::PosInt(7)).as_i64(), Some(7));
    assert_eq!(Json::Number(JsonNumber::NegInt(-7)).as_i64(), Some(-7));
    assert_eq!(Json::Number(JsonNumber::NegInt(-7)).as_u64(), None);
    assert_eq!(Json::Number(JsonNumber::Float("1.5".to_string())).as_u64(), None);
    assert_eq!(Json::Str("7".to_string()).as_u64(), None);
}

#[test]
fn paths_follow_members() {
    let doc = obj(vec![("x", obj(vec![("y", Json::Str("deep".to_string()))]))]);
    assert_eq!(doc.at_path(&["x", "y"]).and_then(|v| v.as_str()), Some("deep"));
    assert!(doc.at_path(&["x", "z"]).is_none());
    assert!(matches!(doc.at_path(&[]), Some(Json::Object(_))));
}

#[test]
fn text_equality() {
    assert!(text_eq(&"tenant".to_string(), "tenant"));
    assert!(!text_eq(&"tenant".to_string(), "tenants"));
}
