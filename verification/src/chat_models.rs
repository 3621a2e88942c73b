//! Typed chat messages for the Fireworks tool-calling client, and the JSON
//! payloads it exchanges.
//!
//! The client here is the configuration and payload logic only: the HTTP
//! call and the credential live with the caller, which hands response
//! bodies back in as values.

use vstd::prelude::*;
use vstd::string::StringExecFns;
use crate::ai::AIMessage;
use crate::human::HumanMessage;
use crate::json::{
    JsonValue, JsonV, spec_view_fields, spec_view_list, spec_obj_get, obj_get, arr_get,
    lemma_view_fields_index, lemma_view_list_index, lemma_view_list_len,
};
use crate::temp::Temp;
use crate::tools::{ToolCall, ToolDefinition, spec_tool_call_json, spec_tool_json};

verus! {

/// Supported role values in chat requests.
#[derive(Debug, Clone, Copy)]
pub enum MessageRole {
    /// Human/user role.
    User,
    /// Assistant role.
    Assistant,
    /// Tool result role.
    Tool,
}

impl MessageRole {
    /// The role's wire name.
    pub open spec fn spec_str(self) -> Seq<char> {
        match self {
            MessageRole::User => "user"@,
            MessageRole::Assistant => "assistant"@,
            MessageRole::Tool => "tool"@,
        }
    }
}

/// Chat message wrapper used by [`ChatFireworks`].
#[derive(Debug)]
pub struct ChatMessage {
    pub role: MessageRole,
    pub content: JsonValue,
    pub tool_call_id: Option<String>,
    pub tool_calls: Option<Vec<ToolCall>>,
}

/// The identifying view of one tool call: id, name and arguments.
pub open spec fn spec_call_view(c: ToolCall) -> (Seq<char>, Seq<char>, JsonV) {
    (c.id@, c.name@, c.args@)
}

/// The wire form of one chat message: role and content always, the tool
/// call id and the echoed tool calls only when present.
pub open spec fn spec_chat_to_json(m: ChatMessage) -> JsonV {
    let base = seq![
        ("role"@, JsonV::Str(m.role.spec_str())),
        ("content"@, m.content@),
    ];
    let with_id = if m.tool_call_id is Some {
        base.push(("tool_call_id"@, JsonV::Str(m.tool_call_id->0@)))
    } else {
        base
    };
    let with_calls = if m.tool_calls is Some {
        with_id.push(
            (
                "tool_calls"@,
                JsonV::Arr(
                    Seq::new(
                        m.tool_calls->0@.len(),
                        |i: int| spec_tool_call_json(m.tool_calls->0@[i]),
                    ),
                ),
            ),
        )
    } else {
        with_id
    };
    JsonV::Obj(with_calls)
}

impl ChatMessage {
    /// Builds a user message from a [`HumanMessage`].
    pub fn user(message: HumanMessage) -> (r: ChatMessage)
        ensures
            r.role is User,
            r.content@ == crate::human::spec_human_json(message),
            r.tool_call_id is None,
            r.tool_calls is None,
    {
        ChatMessage {
            role: MessageRole::User,
            content: message.to_json(),
            tool_call_id: None,
            tool_calls: None,
        }
    }

    /// Builds a plain-text user message.
    pub fn user_text(content: &str) -> (r: ChatMessage)
        ensures
            r.role is User,
            r.content@ == JsonV::Str(content@),
            r.tool_call_id is None,
            r.tool_calls is None,
    {
        ChatMessage {
            role: MessageRole::User,
            content: JsonValue::Str(String::from_str(content)),
            tool_call_id: None,
            tool_calls: None,
        }
    }

    /// Builds a multipart user message.
    pub fn user_parts(parts: Vec<JsonValue>) -> (r: ChatMessage)
        ensures
            r.role is User,
            r.content == JsonValue::Arr(parts),
            r.tool_call_id is None,
            r.tool_calls is None,
    {
        ChatMessage {
            role: MessageRole::User,
            content: JsonValue::Arr(parts),
            tool_call_id: None,
            tool_calls: None,
        }
    }

    /// Builds an assistant message from an [`AIMessage`]: empty content
    /// becomes null, and tool calls are echoed only when any were made.
    pub fn assistant_from_ai(message: &AIMessage) -> (r: ChatMessage)
        ensures
            r.role is Assistant,
            r.content@ == if message.content@.len() == 0 {
                JsonV::Null
            } else {
                JsonV::Str(message.content@)
            },
            r.tool_call_id is None,
            message.tool_calls@.len() == 0 ==> r.tool_calls is None,
            message.tool_calls@.len() > 0 ==> (r.tool_calls matches Some(cs) && cs@.len()
                == message.tool_calls@.len() && (forall|i: int|
                0 <= i < cs@.len() ==> spec_call_view(#[trigger] cs@[i]) == spec_call_view(
                    message.tool_calls@[i],
                ))),
    {
        let content = if message.content.as_str().unicode_len() == 0 {
            JsonValue::Null
        } else {
            JsonValue::Str(message.content.clone())
        };
        let tool_calls: Option<Vec<ToolCall>> = if message.tool_calls.len() == 0 {
            None
        } else {
            let mut copy: Vec<ToolCall> = Vec::new();
            let mut i: usize = 0;
            while i < message.tool_calls.len()
                invariant
                    i <= message.tool_calls@.len(),
                    copy@.len() == i,
                    forall|j: int|
                        0 <= j < i ==> spec_call_view(#[trigger] copy@[j]) == spec_call_view(
                            message.tool_calls@[j],
                        ),
                decreases message.tool_calls@.len() - i,
            {
                copy.push(message.tool_calls[i].clone());
                i = i + 1;
            }
            Some(copy)
        };
        ChatMessage { role: MessageRole::Assistant, content, tool_call_id: None, tool_calls }
    }

    /// Builds a tool-result message associated with a tool call id.
    pub fn tool_result(tool_call_id: &str, content: &str) -> (r: ChatMessage)
        ensures
            r.role is Tool,
            r.content@ == JsonV::Str(content@),
            r.tool_call_id matches Some(id) && id@ == tool_call_id@,
            r.tool_calls is None,
    {
        ChatMessage {
            role: MessageRole::Tool,
            content: JsonValue::Str(String::from_str(content)),
            tool_call_id: Some(String::from_str(tool_call_id)),
            tool_calls: None,
        }
    }

    /// Serializes this chat message to provider JSON format.
    #[verifier::loop_isolation(false)]
    pub fn to_json(&self) -> (r: JsonValue)
        ensures
            r@ == spec_chat_to_json(*self),
    {
        let role = match self.role {
            MessageRole::User => "user",
            MessageRole::Assistant => "assistant",
            MessageRole::Tool => "tool",
        };
        let mut fields: Vec<(String, JsonValue)> = Vec::new();
        fields.push((String::from_str("role"), JsonValue::Str(String::from_str(role))));
        fields.push((String::from_str("content"), self.content.clone()));
        if let Some(tool_call_id) = &self.tool_call_id {
            fields.push((String::from_str("tool_call_id"), JsonValue::Str(tool_call_id.clone())));
        }
        if let Some(tool_calls) = &self.tool_calls {
            let mut items: Vec<JsonValue> = Vec::new();
            let mut i: usize = 0;
            while i < tool_calls.len()
                invariant
                    i <= tool_calls@.len(),
                    spec_view_list(items@) =~= Seq::new(
                        i as nat,
                        |j: int| spec_tool_call_json(tool_calls@[j]),
                    ),
                decreases tool_calls@.len() - i,
            {
                let call_json = tool_calls[i].to_json();
                let ghost prev = items@;
                items.push(call_json);
                i = i + 1;
                proof {
                    assert(items@.drop_last() =~= prev);
                    assert(spec_view_list(items@) =~= Seq::new(
                        i as nat,
                        |j: int| spec_tool_call_json(tool_calls@[j]),
                    ));
                }
            }
            fields.push((String::from_str("tool_calls"), JsonValue::Arr(items)));
        }
        let r = JsonValue::Obj(fields);
        proof {
            lemma_view_fields_index(r->Obj_0@, 0);
            lemma_view_fields_index(r->Obj_0@, 1);
            if self.tool_call_id is Some {
                lemma_view_fields_index(r->Obj_0@, 2);
                if self.tool_calls is Some {
                    lemma_view_fields_index(r->Obj_0@, 3);
                }
            } else {
                if self.tool_calls is Some {
                    lemma_view_fields_index(r->Obj_0@, 2);
                }
            }
            assert(spec_view_fields(r->Obj_0@) =~= spec_chat_to_json(*self)->Obj_0);
        }
        r
    }
}

/// Fireworks chat-completions client configuration: the model, the sampling
/// temperature, and the tool declarations bound to it. The credential and
/// the HTTP transport live with the caller.
#[derive(Debug)]
pub struct ChatFireworks {
    pub model: String,
    pub temperature: Temp,
    pub tools: Option<Vec<ToolDefinition>>,
}

impl ChatFireworks {
    /// Creates a new client configuration from a model id and temperature.
    pub fn new(model: &str, temperature: Temp) -> (r: ChatFireworks)
        ensures
            r.model@ == model@,
            r.temperature == temperature,
            r.tools is None,
    {
        ChatFireworks { model: String::from_str(model), temperature, tools: None }
    }

    /// Returns a configuration bound to tool definitions.
    pub fn bind_tools(self, tools: Vec<ToolDefinition>) -> (r: ChatFireworks)
        ensures
            r.model == self.model,
            r.temperature == self.temperature,
            r.tools == Some(tools),
    {
        ChatFireworks { model: self.model, temperature: self.temperature, tools: Some(tools) }
    }

    /// Serializes the request payload for an invocation with the given
    /// messages: model, messages, temperature, and the bound tools if any.
    #[verifier::loop_isolation(false)]
    pub fn invoke_payload(&self, messages: &Vec<ChatMessage>) -> (r: JsonValue)
        ensures
            r@ == spec_invoke_payload(*self, messages@),
    {
        let mut fields: Vec<(String, JsonValue)> = Vec::new();
        fields.push((String::from_str("model"), JsonValue::Str(self.model.clone())));
        let mut items: Vec<JsonValue> = Vec::new();
        let mut i: usize = 0;
        while i < messages.len()
            invariant
                i <= messages@.len(),
                spec_view_list(items@) =~= Seq::new(
                    i as nat,
                    |j: int| spec_chat_to_json(messages@[j]),
                ),
            decreases messages@.len() - i,
        {
            let msg_json = messages[i].to_json();
            let ghost prev = items@;
            items.push(msg_json);
            i = i + 1;
            proof {
                assert(items@.drop_last() =~= prev);
                assert(spec_view_list(items@) =~= Seq::new(
                    i as nat,
                    |j: int| spec_chat_to_json(messages@[j]),
                ));
            }
        }
        fields.push((String::from_str("messages"), JsonValue::Arr(items)));
        fields.push((String::from_str("temperature"), JsonValue::Dec(self.temperature)));
        if let Some(tools) = &self.tools {
            let mut tool_items: Vec<JsonValue> = Vec::new();
            let mut i: usize = 0;
            while i < tools.len()
                invariant
                    i <= tools@.len(),
                    spec_view_list(tool_items@) =~= Seq::new(
                        i as nat,
                        |j: int| spec_tool_json(tools@[j].function),
                    ),
                decreases tools@.len() - i,
            {
                let tool_json = tools[i].to_json();
                let ghost prev = tool_items@;
                tool_items.push(tool_json);
                i = i + 1;
                proof {
                    assert(tool_items@.drop_last() =~= prev);
                    assert(spec_view_list(tool_items@) =~= Seq::new(
                        i as nat,
                        |j: int| spec_tool_json(tools@[j].function),
                    ));
                }
            }
            fields.push((String::from_str("tools"), JsonValue::Arr(tool_items)));
        }
        let r = JsonValue::Obj(fields);
        proof {
            lemma_view_fields_index(r->Obj_0@, 0);
            lemma_view_fields_index(r->Obj_0@, 1);
            lemma_view_fields_index(r->Obj_0@, 2);
            if self.tools is Some {
                lemma_view_fields_index(r->Obj_0@, 3);
            }
            assert(spec_view_fields(r->Obj_0@) =~= spec_invoke_payload(*self, messages@)
                ->Obj_0);
        }
        r
    }
}

/// Wraps user messages for an invocation that sends user content only.
pub fn user_messages(messages: &Vec<HumanMessage>) -> (r: Vec<ChatMessage>)
    ensures
        r@.len() == messages@.len(),
        forall|i: int|
            0 <= i < r@.len() ==> {
                &&& (#[trigger] r@[i]).role is User
                &&& r@[i].content@ == crate::human::spec_human_json(messages@[i])
                &&& r@[i].tool_call_id is None
                &&& r@[i].tool_calls is None
            },
{
    let mut r: Vec<ChatMessage> = Vec::new();
    let mut i: usize = 0;
    while i < messages.len()
        invariant
            i <= messages@.len(),
            r@.len() == i,
            forall|j: int|
                0 <= j < i ==> {
                    &&& (#[trigger] r@[j]).role is User
                    &&& r@[j].content@ == crate::human::spec_human_json(messages@[j])
                    &&& r@[j].tool_call_id is None
                    &&& r@[j].tool_calls is None
                },
        decreases messages@.len() - i,
    {
        let copy = messages[i].clone();
        r.push(ChatMessage::user(copy));
        i = i + 1;
    }
    r
}

/// The request payload of one invocation.
pub open spec fn spec_invoke_payload(client: ChatFireworks, msgs: Seq<ChatMessage>) -> JsonV {
    let base = seq![
        ("model"@, JsonV::Str(client.model@)),
        (
            "messages"@,
            JsonV::Arr(Seq::new(msgs.len(), |i: int| spec_chat_to_json(msgs[i]))),
        ),
        ("temperature"@, JsonV::Dec(client.temperature)),
    ];
    if client.tools is Some {
        JsonV::Obj(
            base.push(
                (
                    "tools"@,
                    JsonV::Arr(
                        Seq::new(
                            client.tools->0@.len(),
                            |i: int| spec_tool_json(client.tools->0@[i].function),
                        ),
                    ),
                ),
            ),
        )
    } else {
        JsonV::Obj(base)
    }
}

/// The value under a key of a JSON object, with a missing key or a
/// non-object reading as null.
pub open spec fn spec_index(v: JsonV, key: Seq<char>) -> JsonV {
    match spec_obj_get(v, key) {
        Some(x) => x,
        None => JsonV::Null,
    }
}

/// The element of a JSON array, with anything else reading as null.
pub open spec fn spec_index_at(v: JsonV, i: int) -> JsonV {
    match crate::json::spec_arr_item(v, i) {
        Some(x) => x,
        None => JsonV::Null,
    }
}

/// The characters of a JSON string, with anything else reading as empty.
pub open spec fn spec_str_or_empty(v: JsonV) -> Seq<char> {
    match v {
        JsonV::Str(s) => s,
        _ => Seq::empty(),
    }
}

/// Reads a field of a JSON document, yielding null for a missing key or a
/// non-object.
fn index_field<'a>(v: &'a JsonValue, key: &str) -> (r: Option<&'a JsonValue>)
    ensures
        match r {
            Some(x) => spec_index(v@, key@) == x@,
            None => spec_index(v@, key@) == JsonV::Null,
        },
{
    obj_get(v, key)
}

/// The tool calls a response message carries: for each entry of its
/// `tool_calls` array with a non-empty function name, the call's id, name
/// and arguments payload, string-valued fields reading as empty when absent.
pub open spec fn spec_calls_of(items: Seq<JsonV>) -> Seq<(Seq<char>, Seq<char>, JsonV)>
    decreases items,
{
    if items.len() == 0 {
        Seq::empty()
    } else {
        let c = items.last();
        let name = spec_str_or_empty(spec_index(spec_index(c, "function"@), "name"@));
        let rest = spec_calls_of(items.drop_last());
        if name.len() > 0 {
            rest.push(
                (
                    spec_str_or_empty(spec_index(c, "id"@)),
                    name,
                    spec_index(spec_index(c, "function"@), "arguments"@),
                ),
            )
        } else {
            rest
        }
    }
}

/// The parsed tool calls of a whole response message.
pub open spec fn spec_parsed_calls(message: JsonV) -> Seq<(Seq<char>, Seq<char>, JsonV)> {
    match spec_index(message, "tool_calls"@) {
        JsonV::Arr(items) => spec_calls_of(items),
        _ => Seq::empty(),
    }
}

/// The views of a list of tool calls.
pub open spec fn spec_call_views(s: Seq<ToolCall>) -> Seq<(Seq<char>, Seq<char>, JsonV)> {
    Seq::new(s.len(), |i: int| spec_call_view(s[i]))
}

/// Extracts the tool calls of a response message: entries of its
/// `tool_calls` array whose function name is non-empty, with their id, name
/// and arguments payload. A string-valued arguments payload is kept as the
/// string it came as, not decoded into a document: echoing such a call back
/// reproduces the provider's own text, and consumers that want its structure
/// decode it themselves.
#[verifier::loop_isolation(false)]
pub fn parse_tool_calls(message: &JsonValue) -> (r: Vec<ToolCall>)
    ensures
        spec_call_views(r@) == spec_parsed_calls(message@),
{
    let mut r: Vec<ToolCall> = Vec::new();
    let calls = match index_field(message, "tool_calls") {
        Some(v) => match v {
            JsonValue::Arr(items) => items,
            _ => {
                proof {
                    assert(spec_call_views(r@) =~= spec_parsed_calls(message@));
                }
                return r;
            },
        },
        None => {
            proof {
                assert(spec_call_views(r@) =~= spec_parsed_calls(message@));
            }
            return r;
        },
    };
    proof {
        lemma_view_list_len(calls@);
    }
    let ghost items = spec_view_list(calls@);
    let mut i: usize = 0;
    while i < calls.len()
        invariant
            i <= calls@.len(),
            items == spec_view_list(calls@),
            spec_call_views(r@) =~= spec_calls_of(items.subrange(0, i as int)),
        decreases calls@.len() - i,
    {
        proof {
            lemma_view_list_index(calls@, i as int);
        }
        let call = &calls[i];
        let id: String = match index_field(call, "id") {
            Some(v) => match v {
                JsonValue::Str(s) => s.clone(),
                _ => String::new(),
            },
            None => String::new(),
        };
        let function = index_field(call, "function");
        let name: String = match function {
            Some(f) => match index_field(f, "name") {
                Some(v) => match v {
                    JsonValue::Str(s) => s.clone(),
                    _ => String::new(),
                },
                None => String::new(),
            },
            None => String::new(),
        };
        let args: JsonValue = match function {
            Some(f) => match index_field(f, "arguments") {
                Some(v) => v.clone(),
                None => JsonValue::Null,
            },
            None => JsonValue::Null,
        };
        let ghost prev = r@;
        if name.as_str().unicode_len() > 0 {
            r.push(ToolCall { id, name, args });
            proof {
                assert(r@.drop_last() =~= prev);
            }
        }
        i = i + 1;
        proof {
            assert(items.subrange(0, i as int).drop_last() =~= items.subrange(0, i - 1));
            assert(items.subrange(0, i as int).last() == items[i - 1]);
            assert(spec_call_views(r@) =~= spec_calls_of(items.subrange(0, i as int)));
        }
    }
    proof {
        assert(items.subrange(0, items.len() as int) =~= items);
    }
    r
}

/// The response message a Fireworks invocation reads: the first choice's
/// message document.
pub open spec fn spec_invoke_message(body: JsonV) -> JsonV {
    spec_index(spec_index_at(spec_index(body, "choices"@), 0), "message"@)
}

/// Reads the assistant message out of a Fireworks chat-completions response
/// body: the first choice's content (empty when absent) and its tool calls.
pub fn parse_invoke_response(body: &JsonValue) -> (r: AIMessage)
    ensures
        r.content@ == spec_str_or_empty(spec_index(spec_invoke_message(body@), "content"@)),
        spec_call_views(r.tool_calls@) == spec_parsed_calls(spec_invoke_message(body@)),
{
    let null_value = JsonValue::Null;
    let choice: &JsonValue = match index_field(body, "choices") {
        Some(choices) => match arr_get(choices, 0) {
            Some(c) => c,
            None => &null_value,
        },
        None => &null_value,
    };
    let message: &JsonValue = match index_field(choice, "message") {
        Some(m) => m,
        None => &null_value,
    };
    let content: String = match index_field(message, "content") {
        Some(v) => match v {
            JsonValue::Str(s) => s.clone(),
            _ => String::new(),
        },
        None => String::new(),
    };
    let tool_calls = parse_tool_calls(message);
    AIMessage { content, tool_calls }
}

} // verus!
