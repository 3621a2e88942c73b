//! User-side message data and its wire form.

use vstd::prelude::*;
use vstd::string::StringExecFns;
use crate::json::{JsonValue, JsonV, spec_view_list, lemma_view_list_eq};

verus! {

/// User message payload representation.
#[derive(Debug)]
pub enum HumanContent {
    /// Plain text content.
    Text(String),
    /// Structured multi-part payload.
    Parts(Vec<JsonValue>),
}

/// User message wrapper.
#[derive(Debug)]
pub struct HumanMessage {
    /// Message content.
    pub content: HumanContent,
}

/// The wire form of a user message: its text as a JSON string, or its parts
/// as a JSON array.
pub open spec fn spec_human_json(m: HumanMessage) -> JsonV {
    match m.content {
        HumanContent::Text(text) => JsonV::Str(text@),
        HumanContent::Parts(parts) => JsonV::Arr(spec_view_list(parts@)),
    }
}

impl Clone for HumanMessage {
    fn clone(&self) -> (r: Self)
        ensures
            spec_human_json(r) == spec_human_json(*self),
    {
        match &self.content {
            HumanContent::Text(text) => HumanMessage { content: HumanContent::Text(text.clone()) },
            HumanContent::Parts(parts) => {
                let cloned = clone_json_vec(parts);
                proof {
                    lemma_view_list_eq(cloned@, parts@);
                }
                HumanMessage { content: HumanContent::Parts(cloned) }
            },
        }
    }
}

/// Clones a vector of JSON documents, preserving every view.
pub fn clone_json_vec(parts: &Vec<JsonValue>) -> (r: Vec<JsonValue>)
    ensures
        r@.len() == parts@.len(),
        forall|i: int| 0 <= i < parts@.len() ==> (#[trigger] r@[i])@ == parts@[i]@,
{
    let mut r: Vec<JsonValue> = Vec::new();
    let mut i: usize = 0;
    while i < parts.len()
        invariant
            i <= parts.len(),
            r@.len() == i,
            forall|j: int| 0 <= j < i ==> (#[trigger] r@[j])@ == parts@[j]@,
        decreases parts.len() - i,
    {
        r.push(parts[i].clone());
        i = i + 1;
    }
    r
}

impl HumanMessage {
    /// Creates a plain-text human message.
    pub fn new(content: &str) -> (r: HumanMessage)
        ensures
            r.content matches HumanContent::Text(text) && text@ == content@,
    {
        HumanMessage { content: HumanContent::Text(String::from_str(content)) }
    }

    /// Creates a multi-part human message.
    pub fn from_parts(parts: Vec<JsonValue>) -> (r: HumanMessage)
        ensures
            r.content == HumanContent::Parts(parts),
    {
        HumanMessage { content: HumanContent::Parts(parts) }
    }

    /// Converts the message to JSON wire format.
    pub fn to_json(&self) -> (r: JsonValue)
        ensures
            r@ == spec_human_json(*self),
    {
        match &self.content {
            HumanContent::Text(text) => JsonValue::Str(text.clone()),
            HumanContent::Parts(parts) => {
                let cloned = clone_json_vec(parts);
                proof {
                    lemma_view_list_eq(cloned@, parts@);
                }
                JsonValue::Arr(cloned)
            },
        }
    }
}

} // verus!
