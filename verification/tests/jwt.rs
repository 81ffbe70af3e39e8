use hal9000::jwt::{tokenize_items, tokenize_text};
use jsonwebtoken::{decode, encode, DecodingKey, EncodingKey, Header, Validation};
use serde_json::Value;

fn expected_token(claims: &Value) -> String {
    encode(&Header::default(), claims, &EncodingKey::from_secret(b"secret")).unwrap()
}

#[test]
fn signs_each_item_in_order() {
    let items: Vec<Value> = serde_json::from_str(r#"[{"sub":"alice","n":1},{"sub":"bob","admin":true}]"#).unwrap();
    let texts: Vec<String> = items.iter().map(|v| serde_json::to_string(v).unwrap()).collect();
    let tokens = tokenize_items(&texts).unwrap();
    assert_eq!(tokens.len(), 2);
    for (token, item) in tokens.iter().zip(items.iter()) {
        assert_eq!(token, &expected_token(item));
        assert_ne!(token, &serde_json::to_string(item).unwrap());
    }
}

#[test]
fn tokens_verify_with_the_secret() {
    let texts = vec![r#"{"sub":"carol"}"#.to_string()];
    let tokens = tokenize_items(&texts).unwrap();
    let mut validation = Validation::default();
    validation.required_spec_claims.clear();
    validation.validate_exp = false;
    let data = decode::<Value>(&tokens[0], &DecodingKey::from_secret(b"secret"), &validation).unwrap();
    assert_eq!(data.claims["sub"], "carol");
}

#[test]
fn no_items_no_tokens() {
    assert_eq!(tokenize_items(&Vec::new()), Some(Vec::new()));
}

#[test]
fn malformed_claims_are_not_signed() {
    assert_eq!(tokenize_items(&vec!["{not json".to_string()]), None);
}

#[test]
fn signs_every_item_of_an_array_text() {
    let text = r#"[{"sub":"alice","n":1}, {"sub":"bob","admin":true}, 7, "x"]"#;
    let items: Vec<Value> = serde_json::from_str(text).unwrap();
    let tokens = tokenize_text(text).unwrap();
    assert_eq!(tokens.len(), 4);
    for (token, item) in tokens.iter().zip(items.iter()) {
        assert_eq!(token, &expected_token(item));
    }
}

#[test]
fn array_text_with_no_items_gives_no_tokens() {
    assert_eq!(tokenize_text(" [ ] "), Some(Vec::new()));
}

#[test]
fn text_that_is_not_an_array_is_refused() {
    assert_eq!(tokenize_text(r#"{"sub":"alice"}"#), None);
    assert_eq!(tokenize_text("[1,"), None);
    assert_eq!(tokenize_text(""), None);
}

#[test]
fn every_json_array_is_signed() {
    let text = r#"[null, 1.5e300, -0, "é\u0000", [[[{"a":{"b":[]}}]]], {"z":1,"a":2}]"#;
    let items: Vec<Value> = serde_json::from_str(text).unwrap();
    let tokens = tokenize_text(text).unwrap();
    assert_eq!(tokens.len(), items.len());
    for (token, item) in tokens.iter().zip(items.iter()) {
        assert_eq!(token, &expected_token(item));
    }
}
