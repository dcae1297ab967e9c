//! Reading the service's JSON replies into the library's own reply types.

use vstd::prelude::*;
use crate::signed_upload::{StatusReply, TokenReply};

verus! {

/// A JSON document, held whole and read through the accessors below.
#[verifier::external_type_specification]
#[verifier::external_body]
pub struct ExValue(serde_json::Value);

/// Relies on `serde_json::Value::pointer`: looks a value up by a JSON pointer.
pub assume_specification<'a>[ serde_json::Value::pointer ](
    v: &'a serde_json::Value,
    pointer: &str,
) -> Option<&'a serde_json::Value>;

/// Relies on `serde_json::Value::as_i64`: the value as an integer, if it is one.
pub assume_specification[ serde_json::Value::as_i64 ](v: &serde_json::Value) -> Option<i64>;

/// Relies on `serde_json::Value::as_str`: the value as text, if it is a string.
pub assume_specification<'a>[ serde_json::Value::as_str ](v: &'a serde_json::Value) -> Option<&'a str>;

/// Relies on `serde_json::Value::as_object` and `serde_json::Map::iter`: the
/// members of an object, as key and value.
#[verifier::external_body]
fn object_members(v: &serde_json::Value) -> Option<Vec<(String, serde_json::Value)>> {
    v.as_object().map(|m| m.iter().map(|(k, x)| (k.clone(), x.clone())).collect())
}

fn text_at(v: &serde_json::Value, pointer: &str) -> Option<String> {
    match v.pointer(pointer) {
        Some(x) => match x.as_str() {
            Some(s) => Some(String::from_str(s)),
            None => None,
        },
        None => None,
    }
}

fn integer_at(v: &serde_json::Value, pointer: &str) -> Option<i64> {
    match v.pointer(pointer) {
        Some(x) => x.as_i64(),
        None => None,
    }
}

/// The reply of the token exchange, read from its JSON envelope.
pub fn token_reply_from_json(v: &serde_json::Value) -> TokenReply {
    let params = match v.pointer("/data/params") {
        Some(p) => match object_members(p) {
            Some(members) => {
                let mut out: Vec<(String, Option<String>)> = Vec::new();
                let mut i: usize = 0;
                while i < members.len()
                    decreases members.len() - i,
                {
                    let value = match members[i].1.as_str() {
                        Some(s) => Some(String::from_str(s)),
                        None => None,
                    };
                    out.push((members[i].0.clone(), value));
                    i = i + 1;
                }
                Some(out)
            },
            None => None,
        },
        None => None,
    };
    TokenReply {
        code: integer_at(v, "/code"),
        message: text_at(v, "/message"),
        endpoint: text_at(v, "/data/endpoint"),
        key: text_at(v, "/data/key"),
        params,
    }
}

/// The reply of a status query, read from its JSON envelope.
pub fn status_reply_from_json(v: &serde_json::Value) -> StatusReply {
    StatusReply {
        code: integer_at(v, "/code"),
        message: text_at(v, "/message"),
        build_shortcut_url: text_at(v, "/data/buildShortcutUrl"),
        build_qr_code_url: text_at(v, "/data/buildQRCodeURL"),
        build_key: text_at(v, "/data/buildKey"),
    }
}

} // verus!
