//! The wire protocol: decoding script-originated invoke messages.
//!
//! Page script posts a JSON object `{ "id": <u64>, "method": <string>,
//! "params": [<json value>, ...] }`.  Decoding composes the trusted
//! `serde_json` surface: parse the text, read the three fields, and check
//! their shapes.  Anything else — malformed JSON, a missing field, a wrong
//! type — yields nothing, and the caller discards the message.

use vstd::prelude::*;
use crate::json::{
    array_texts, field_text, json_as_array, json_as_str, json_as_u64, json_get, json_parse,
    json_text, parsed_text, str_value, u64_value,
};

verus! {

/// One decoded script-to-host call: which binding to invoke, with which
/// arguments, and which pending page-side promise the outcome settles.
pub struct InvokeMessage {
    pub id: u64,
    pub method: String,
    pub params: Vec<serde_json::Value>,
}

/// The mathematical content of an invoke message: the call id, the method
/// name, and each parameter rendered as its JSON text.
pub ghost struct InvokeModel {
    pub id: u64,
    pub method: Seq<char>,
    pub params: Seq<Seq<char>>,
}

impl InvokeMessage {
    /// The message's mathematical content.
    pub open spec fn model(self) -> InvokeModel {
        InvokeModel {
            id: self.id,
            method: self.method@,
            params: self.params@.map_values(|e: serde_json::Value| json_text(e)),
        }
    }
}

/// What a wire text decodes to: the invoke message when the text is valid
/// JSON whose `id` is an unsigned integer, whose `method` is a string, and
/// whose `params` is an array; nothing otherwise.
pub open spec fn spec_decode(s: Seq<char>) -> Option<InvokeModel> {
    match parsed_text(s) {
        None => None,
        Some(t) => match (field_text(t, "id"@), field_text(t, "method"@), field_text(t, "params"@)) {
            (Some(idt), Some(mt), Some(pt)) => match (u64_value(idt), str_value(mt), array_texts(pt)) {
                (Some(id), Some(m), Some(ps)) => Some(InvokeModel { id, method: m, params: ps }),
                _ => None,
            },
            _ => None,
        },
    }
}

/// Decodes a wire text into an invoke message, or `None` for a text that
/// is not a well-shaped invoke message.
pub fn decode_invoke(raw: &str) -> (r: Option<InvokeMessage>)
    ensures
        r is Some <==> spec_decode(raw@) is Some,
        r matches Some(m) ==> spec_decode(raw@) == Some(m.model()),
{
    let v = match json_parse(raw) {
        Some(v) => v,
        None => { return None },
    };
    let idv = match json_get(&v, "id") {
        Some(x) => x,
        None => { return None },
    };
    let mv = match json_get(&v, "method") {
        Some(x) => x,
        None => { return None },
    };
    let pv = match json_get(&v, "params") {
        Some(x) => x,
        None => { return None },
    };
    let id = match json_as_u64(idv) {
        Some(x) => x,
        None => { return None },
    };
    let method = match json_as_str(mv) {
        Some(x) => x,
        None => { return None },
    };
    let params = match json_as_array(pv) {
        Some(x) => x,
        None => { return None },
    };
    Some(InvokeMessage { id, method: method.to_owned(), params })
}

} // verus!
