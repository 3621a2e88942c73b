//! Fireworks embeddings client configuration and its request payload.
//!
//! The embedding vector itself is floating point and never enters the
//! crate: the caller performs the HTTP call and reads the response; this
//! module pins down what is sent.

use vstd::prelude::*;
use vstd::string::StringExecFns;
use crate::json::{JsonValue, JsonV, spec_view_fields, lemma_view_fields_index};

verus! {

/// Fireworks embeddings client configuration: the model to embed with. The
/// credential and the HTTP transport live with the caller.
#[derive(Debug)]
pub struct FireworksEmbeddings {
    pub model: String,
}

/// The request payload of one embedding query: the model and the input
/// text.
pub open spec fn spec_embeddings_payload(model: Seq<char>, input: Seq<char>) -> JsonV {
    JsonV::Obj(
        seq![("model"@, JsonV::Str(model)), ("input"@, JsonV::Str(input))],
    )
}

impl FireworksEmbeddings {
    /// Creates a new client configuration from a model id.
    pub fn new(model: &str) -> (r: FireworksEmbeddings)
        ensures
            r.model@ == model@,
    {
        FireworksEmbeddings { model: String::from_str(model) }
    }

    /// Serializes the request payload for embedding one query string.
    pub fn embeddings_payload(&self, input: &str) -> (r: JsonValue)
        ensures
            r@ == spec_embeddings_payload(self.model@, input@),
    {
        let mut fields: Vec<(String, JsonValue)> = Vec::new();
        fields.push((String::from_str("model"), JsonValue::Str(self.model.clone())));
        fields.push((String::from_str("input"), JsonValue::Str(String::from_str(input))));
        let r = JsonValue::Obj(fields);
        proof {
            lemma_view_fields_index(r->Obj_0@, 0);
            lemma_view_fields_index(r->Obj_0@, 1);
            assert(spec_view_fields(r->Obj_0@) =~= spec_embeddings_payload(self.model@, input@)
                ->Obj_0);
        }
        r
    }
}

} // verus!
