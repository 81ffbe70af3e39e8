//! Signing JSON claims into JSON Web Tokens.

use crate::es::texts_view;
use vstd::prelude::*;

verus! {

/// The token that `jsonwebtoken::encode` writes for claims serialized as
/// `claims_json`, under the default header (HS256) and the HMAC secret `secret`.
pub uninterp spec fn spec_hs256_token(claims_json: Seq<char>, secret: Seq<u8>) -> Seq<char>;

/// Whether `serde_json::value::RawValue::from_string` accepts the text: one JSON
/// value, with nothing but whitespace around it.
pub uninterp spec fn spec_json_text_accepted(text: Seq<char>) -> bool;

/// The items of a JSON array text, each written back as compact JSON text: what
/// `serde_json::from_str::<Vec<serde_json::Value>>` reads from the text, each
/// value then written with `to_string`; nothing where the text is not a JSON array.
pub uninterp spec fn spec_json_array_items(text: Seq<char>) -> Option<Seq<Seq<char>>>;

/// Calls `serde_json::from_str::<Vec<serde_json::Value>>` on the text and
/// writes each value back with `to_string`. The contract claims that the outcome
/// is the named function of the text, and that each item text is accepted by
/// `RawValue::from_string`: the `Display` of a `Value` writes valid JSON, of no
/// more depth than the array it was read from.
#[verifier::external_body]
fn json_array_items(text: &str) -> (r: Option<Vec<String>>)
    ensures
        r is None <==> spec_json_array_items(text@) is None,
        r matches Some(v) ==> spec_json_array_items(text@) == Some(texts_view(v@)),
        r matches Some(v) ==> forall|i: int|
            0 <= i < v.len() ==> #[trigger] spec_json_text_accepted(v@[i]@),
{
    match serde_json::from_str::<Vec<serde_json::Value>>(text) {
        Ok(values) => Some(values.iter().map(serde_json::Value::to_string).collect()),
        Err(_) => None,
    }
}

/// Calls `jsonwebtoken::encode` with the default header and an HMAC key made
/// from `secret`, on the claims given as JSON text (taken verbatim, as
/// `serde_json::value::RawValue`). The contract claims that a token comes back
/// exactly where `RawValue::from_string` accepts the text (the sources show that
/// `encode` cannot fail then: the default header is HS256, the key is an HMAC
/// key, serializing into a `Vec` does not fail and HMAC signing returns `Ok`),
/// and that the token is the named function of the claims text and the secret.
#[verifier::external_body]
fn encode_hs256(claims_json: &str, secret: &[u8]) -> (r: Option<String>)
    ensures
        r is Some <==> spec_json_text_accepted(claims_json@),
        r matches Some(token) ==> token@ == spec_hs256_token(claims_json@, secret@),
{
    let claims = match serde_json::value::RawValue::from_string(claims_json.to_string()) {
        Ok(c) => c,
        Err(_) => return None,
    };
    let key = jsonwebtoken::EncodingKey::from_secret(secret);
    jsonwebtoken::encode(&jsonwebtoken::Header::default(), &claims, &key).ok()
}

/// The secret that the tokens are signed with: the bytes of `secret`.
pub open spec fn token_secret() -> Seq<u8> {
    seq![115u8, 101u8, 99u8, 114u8, 101u8, 116u8]
}

/// Whether `r` is what signing the JSON texts `items` gives: tokens exactly where
/// every item is accepted, each the token of its item under `token_secret()`.
pub open spec fn signed_all(items: Seq<Seq<char>>, r: Option<Vec<String>>) -> bool {
    &&& r is Some <==> forall|i: int|
        0 <= i < items.len() ==> #[trigger] spec_json_text_accepted(items[i])
    &&& r matches Some(tokens) ==> {
        &&& tokens.len() == items.len()
        &&& forall|i: int|
            0 <= i < items.len() ==> #[trigger] tokens@[i]@ == spec_hs256_token(
                items[i],
                token_secret(),
            )
    }
}

/// Signs each item, given as compact JSON text, into a token, in order; nothing
/// where an item is not JSON text.
pub fn tokenize_items(items: &Vec<String>) -> (r: Option<Vec<String>>)
    ensures
        signed_all(texts_view(items@), r),
{
    let ghost tv = texts_view(items@);
    assert forall|k: int| 0 <= k < items.len() implies #[trigger] tv[k] == items@[k]@ by {}
    let secret: [u8; 6] = [115u8, 101u8, 99u8, 114u8, 101u8, 116u8];
    assert(secret@ =~= token_secret());
    let mut tokens: Vec<String> = Vec::new();
    let mut i: usize = 0;
    while i < items.len()
        invariant
            0 <= i <= items.len(),
            secret@ == token_secret(),
            tv == texts_view(items@),
            tv.len() == items.len(),
            forall|k: int| 0 <= k < items.len() ==> #[trigger] tv[k] == items@[k]@,
            tokens.len() == i,
            forall|k: int| 0 <= k < i ==> #[trigger] spec_json_text_accepted(tv[k]),
            forall|k: int|
                0 <= k < i ==> #[trigger] tokens@[k]@ == spec_hs256_token(tv[k], token_secret()),
        decreases items.len() - i,
    {
        match encode_hs256(items[i].as_str(), &secret) {
            Some(token) => tokens.push(token),
            None => {
                assert(!spec_json_text_accepted(tv[i as int]));
                return None;
            },
        }
        i = i + 1;
    }
    Some(tokens)
}

/// Signs every item of a JSON array text into a token, in order; nothing where
/// the text is not a JSON array.
pub fn tokenize_text(text: &str) -> (r: Option<Vec<String>>)
    ensures
        match spec_json_array_items(text@) {
            None => r is None,
            Some(items) => r is Some && signed_all(items, r),
        },
{
    match json_array_items(text) {
        Some(items) => {
            let ghost tv = texts_view(items@);
            assert forall|i: int| 0 <= i < tv.len() implies #[trigger] spec_json_text_accepted(
                tv[i],
            ) by {
                assert(tv[i] == items@[i]@);
                assert(spec_json_text_accepted(items@[i]@));
            }
            tokenize_items(&items)
        },
        None => None,
    }
}

} // verus!
