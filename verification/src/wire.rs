//! The wire adapter's computing half: the JSON body sent to a provider's
//! chat-completions endpoint, and the reading of what comes back.
//!
//! Both providers speak the same chat-completions schema, differing only in
//! endpoint and credential; the transport itself (HTTP, retries, sleeping)
//! is driven outside the crate and hands bodies in and out as values.

use vstd::prelude::*;
use vstd::string::StringExecFns;
use crate::json::{
    JsonValue, JsonV, spec_view_fields, spec_obj_get, obj_get,
    lemma_view_fields_index, lemma_view_list_index, lemma_view_list_len,
};
use crate::provider::{AskOptions, AskResponse, ChatMessage, Provider, ProviderError, Usage};
use crate::envelope::{spec_messages_json, messages_json};
use crate::retry::{NetErrorKind, RequestFailure};

verus! {

/// The JSON body of one chat-completions request: model and messages
/// always, temperature and max_tokens only when set.
pub open spec fn spec_chat_request(
    model: Seq<char>,
    msgs: Seq<ChatMessage>,
    options: AskOptions,
) -> JsonV {
    let base = seq![
        ("model"@, JsonV::Str(model)),
        ("messages"@, spec_messages_json(msgs)),
    ];
    let with_temp = if options.temperature is Some {
        base.push(("temperature"@, JsonV::Dec(options.temperature->0)))
    } else {
        base
    };
    let with_max = if options.max_tokens is Some {
        with_temp.push(("max_tokens"@, JsonV::UInt(options.max_tokens->0 as u64)))
    } else {
        with_temp
    };
    JsonV::Obj(with_max)
}

/// Builds the JSON body of one chat-completions request.
pub fn build_chat_request(model: &str, messages: &Vec<ChatMessage>, options: &AskOptions)
    -> (r: JsonValue)
    ensures
        r@ == spec_chat_request(model@, messages@, *options),
{
    let mut fields: Vec<(String, JsonValue)> = Vec::new();
    fields.push((String::from_str("model"), JsonValue::Str(String::from_str(model))));
    fields.push((String::from_str("messages"), messages_json(messages)));
    if let Some(t) = options.temperature {
        fields.push((String::from_str("temperature"), JsonValue::Dec(t)));
    }
    if let Some(v) = options.max_tokens {
        fields.push((String::from_str("max_tokens"), JsonValue::UInt(v as u64)));
    }
    let r = JsonValue::Obj(fields);
    proof {
        lemma_view_fields_index(r->Obj_0@, 0);
        lemma_view_fields_index(r->Obj_0@, 1);
        if options.temperature is Some {
            lemma_view_fields_index(r->Obj_0@, 2);
            if options.max_tokens is Some {
                lemma_view_fields_index(r->Obj_0@, 3);
            }
        } else {
            if options.max_tokens is Some {
                lemma_view_fields_index(r->Obj_0@, 2);
            }
        }
        assert(spec_view_fields(r->Obj_0@) =~= spec_chat_request(model@, messages@, *options)
            ->Obj_0);
    }
    r
}

/// What an optional string field of a response object holds: `None` when
/// the field is of the wrong type, `Some(None)` when absent or null,
/// `Some(Some(s))` when a string.
pub open spec fn spec_opt_str_field(o: JsonV, key: Seq<char>) -> Option<Option<Seq<char>>> {
    match spec_obj_get(o, key) {
        None => Some(None),
        Some(JsonV::Null) => Some(None),
        Some(JsonV::Str(s)) => Some(Some(s)),
        Some(_) => None,
    }
}

/// What an optional token-count field of a response object holds, with the
/// same convention; a number outside the 32-bit range is a decode error.
pub open spec fn spec_opt_u32_field(o: JsonV, key: Seq<char>) -> Option<Option<u32>> {
    match spec_obj_get(o, key) {
        None => Some(None),
        Some(JsonV::Null) => Some(None),
        Some(JsonV::UInt(n)) => if n <= u32::MAX {
            Some(Some(n as u32))
        } else {
            None
        },
        Some(_) => None,
    }
}

/// The choice list of a response body, when it decodes: the `choices`
/// field must be an array.
pub open spec fn spec_choices(body: JsonV) -> Option<Seq<JsonV>> {
    match spec_obj_get(body, "choices"@) {
        Some(JsonV::Arr(items)) => Some(items),
        _ => None,
    }
}

/// Whether one choice decodes: it must carry a `message` object whose
/// `content`, if present, is a string or null.
pub open spec fn spec_choice_ok(c: JsonV) -> bool {
    match spec_obj_get(c, "message"@) {
        Some(m) => m is Obj && spec_opt_str_field(m, "content"@) is Some,
        None => false,
    }
}

/// The content of one decoded choice.
pub open spec fn spec_choice_content(c: JsonV) -> Option<Seq<char>> {
    match spec_obj_get(c, "message"@) {
        Some(m) => spec_opt_str_field(m, "content"@)->0,
        None => None,
    }
}

/// The usage report of a response body: `None` when it does not decode,
/// `Some(None)` when absent or null, and `Some(Some(u))` otherwise.
pub open spec fn spec_usage_of(body: JsonV) -> Option<Option<Usage>> {
    match spec_obj_get(body, "usage"@) {
        None => Some(None),
        Some(JsonV::Null) => Some(None),
        Some(u) => {
            if u is Obj && spec_opt_u32_field(u, "prompt_tokens"@) is Some && spec_opt_u32_field(
                u,
                "completion_tokens"@,
            ) is Some && spec_opt_u32_field(u, "total_tokens"@) is Some {
                Some(
                    Some(
                        Usage {
                            prompt_tokens: spec_opt_u32_field(u, "prompt_tokens"@)->0,
                            completion_tokens: spec_opt_u32_field(u, "completion_tokens"@)->0,
                            total_tokens: spec_opt_u32_field(u, "total_tokens"@)->0,
                        },
                    ),
                )
            } else {
                None
            }
        },
    }
}

/// Whether a whole response body decodes into the canonical shape: a
/// `choices` array whose every element decodes, and a decodable usage
/// report.
pub open spec fn spec_decode_ok(body: JsonV) -> bool {
    &&& spec_choices(body) matches Some(cs) && (forall|i: int|
        0 <= i < cs.len() ==> spec_choice_ok(#[trigger] cs[i]))
    &&& spec_usage_of(body) is Some
}

/// Reads an optional string field of a response object.
fn read_opt_str_field(o: &JsonValue, key: &str) -> (r: Result<Option<String>, ()>)
    ensures
        match r {
            Ok(v) => spec_opt_str_field(o@, key@) == Some(crate::config::spec_opt_str(v)),
            Err(_) => spec_opt_str_field(o@, key@) is None,
        },
{
    match obj_get(o, key) {
        None => Ok(None),
        Some(v) => match v {
            JsonValue::Null => Ok(None),
            JsonValue::Str(s) => Ok(Some(s.clone())),
            _ => Err(()),
        },
    }
}

/// Reads an optional token-count field of a response object.
fn read_opt_u32_field(o: &JsonValue, key: &str) -> (r: Result<Option<u32>, ()>)
    ensures
        match r {
            Ok(v) => spec_opt_u32_field(o@, key@) == Some(v),
            Err(_) => spec_opt_u32_field(o@, key@) is None,
        },
{
    match obj_get(o, key) {
        None => Ok(None),
        Some(v) => match v {
            JsonValue::Null => Ok(None),
            JsonValue::UInt(n) => {
                if *n <= u32::MAX as u64 {
                    Ok(Some(*n as u32))
                } else {
                    Err(())
                }
            },
            _ => Err(()),
        },
    }
}

/// Reads a provider's chat-completions response body into the canonical
/// result: the first choice's non-empty content and the optional usage
/// report. A body outside the expected shape is a decode failure; a body
/// whose first choice has no non-empty content is an empty response.
#[verifier::loop_isolation(false)]
pub fn parse_chat_response(provider: Provider, body: &JsonValue) -> (r: Result<
    AskResponse,
    ProviderError,
>)
    ensures
        match r {
            Ok(resp) => {
                &&& spec_decode_ok(body@)
                &&& (spec_choices(body@) matches Some(cs) && cs.len() > 0
                    && spec_choice_content(cs[0]) == Some(resp.content@))
                &&& resp.content@.len() > 0
                &&& Some(resp.usage) == spec_usage_of(body@)
            },
            Err(e) => {
                ||| (!spec_decode_ok(body@) && (e matches ProviderError::Request {
                    provider: p,
                    message,
                } && p == provider && message@ == "error decoding response body"@))
                ||| (spec_decode_ok(body@) && (e matches ProviderError::EmptyResponse {
                    provider: p,
                } && p == provider) && (spec_choices(body@) matches Some(cs) && (cs.len() == 0
                    || spec_choice_content(cs[0]) is None || spec_choice_content(cs[0])
                    == Some(Seq::<char>::empty()))))
            },
        },
{
    let decode_error = ProviderError::Request {
        provider,
        message: String::from_str("error decoding response body"),
    };
    let choices = match obj_get(body, "choices") {
        Some(v) => match v {
            JsonValue::Arr(items) => items,
            _ => {
                return Err(decode_error);
            },
        },
        None => {
            return Err(decode_error);
        },
    };
    proof {
        lemma_view_list_len(choices@);
    }
    let ghost cs = spec_choices(body@)->0;
    let mut content: Option<String> = None;
    let mut i: usize = 0;
    while i < choices.len()
        invariant
            i <= choices.len(),
            cs == crate::json::spec_view_list(choices@),
            cs.len() == choices@.len(),
            spec_choices(body@) == Some(cs),
            forall|j: int| 0 <= j < i ==> spec_choice_ok(#[trigger] cs[j]),
            i == 0 ==> content is None,
            i > 0 ==> crate::config::spec_opt_str(content) == spec_choice_content(cs[0]),
        decreases choices.len() - i,
    {
        proof {
            lemma_view_list_index(choices@, i as int);
        }
        let message = match obj_get(&choices[i], "message") {
            Some(m) => m,
            None => {
                proof {
                    assert(!spec_choice_ok(cs[i as int]));
                }
                return Err(decode_error);
            },
        };
        let is_obj = match message {
            JsonValue::Obj(_) => true,
            _ => false,
        };
        if !is_obj {
            proof {
                assert(!spec_choice_ok(cs[i as int]));
            }
            return Err(decode_error);
        }
        let c = match read_opt_str_field(message, "content") {
            Ok(v) => v,
            Err(_) => {
                proof {
                    assert(!spec_choice_ok(cs[i as int]));
                }
                return Err(decode_error);
            },
        };
        if i == 0 {
            content = c;
        }
        i = i + 1;
    }
    let usage_value = obj_get(body, "usage");
    let usage: Option<Usage> = match usage_value {
        None => None,
        Some(u) => {
            let is_null = match u {
                JsonValue::Null => true,
                _ => false,
            };
            if is_null {
                None
            } else {
                let is_obj = match u {
                    JsonValue::Obj(_) => true,
                    _ => false,
                };
                if !is_obj {
                    return Err(decode_error);
                }
                let prompt_tokens = match read_opt_u32_field(u, "prompt_tokens") {
                    Ok(v) => v,
                    Err(_) => {
                        return Err(decode_error);
                    },
                };
                let completion_tokens = match read_opt_u32_field(u, "completion_tokens") {
                    Ok(v) => v,
                    Err(_) => {
                        return Err(decode_error);
                    },
                };
                let total_tokens = match read_opt_u32_field(u, "total_tokens") {
                    Ok(v) => v,
                    Err(_) => {
                        return Err(decode_error);
                    },
                };
                Some(Usage { prompt_tokens, completion_tokens, total_tokens })
            }
        },
    };
    let content = match content {
        Some(text) => {
            if text.as_str().unicode_len() == 0 {
                return Err(ProviderError::EmptyResponse { provider });
            }
            text
        },
        None => {
            return Err(ProviderError::EmptyResponse { provider });
        },
    };
    Ok(AskResponse { content, usage })
}

/// Wraps a transport failure as the provider error it surfaces: a
/// network-level failure as a request error with the transport's own
/// message, a non-success response as an API error with status and body.
pub fn map_failure(provider: Provider, failure: RequestFailure) -> (r: ProviderError)
    ensures
        match failure {
            RequestFailure::Request { kind, message } => r == (ProviderError::Request {
                provider,
                message,
            }),
            RequestFailure::Api { status, body } => r == (ProviderError::Api {
                provider,
                status,
                body,
            }),
        },
{
    match failure {
        RequestFailure::Request { kind: _, message } => ProviderError::Request {
            provider,
            message,
        },
        RequestFailure::Api { status, body } => ProviderError::Api { provider, status, body },
    }
}

} // verus!
