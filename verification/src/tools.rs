//! Tool (function-calling) schema payloads and the image-to-base64 helper.
//!
//! Tool definitions are plain data rendered into the provider's
//! function-calling JSON schema; a tool call arriving from a model is kept
//! as data and rendered back when echoed. The image helper re-encodes
//! arbitrary image bytes as PNG and hands back their base64 text.

use std::io::Cursor;
use base64::Engine;
use vstd::prelude::*;
use vstd::string::StringExecFns;
use crate::json::{
    JsonValue, JsonV, spec_view_fields, spec_view_list, json_to_string, spec_json_chars,
    lemma_view_fields_index, lemma_view_list_index,
};

verus! {

/// JSON schema primitive types supported for tool parameters.
#[derive(Debug, Clone, Copy)]
pub enum ToolParamType {
    Integer,
    Number,
    String,
    Boolean,
    Object,
    Array,
}

impl ToolParamType {
    /// The schema type's lower-case name.
    pub open spec fn spec_str(self) -> Seq<char> {
        match self {
            ToolParamType::Integer => "integer"@,
            ToolParamType::Number => "number"@,
            ToolParamType::String => "string"@,
            ToolParamType::Boolean => "boolean"@,
            ToolParamType::Object => "object"@,
            ToolParamType::Array => "array"@,
        }
    }

    /// Returns the schema type's lower-case name.
    pub fn as_str(&self) -> (r: &'static str)
        ensures
            r@ == self.spec_str(),
    {
        match self {
            ToolParamType::Integer => "integer",
            ToolParamType::Number => "number",
            ToolParamType::String => "string",
            ToolParamType::Boolean => "boolean",
            ToolParamType::Object => "object",
            ToolParamType::Array => "array",
        }
    }
}

/// One function parameter definition.
#[derive(Debug)]
pub struct ToolParam {
    /// Parameter name.
    pub name: String,
    /// Optional human-readable description.
    pub description: Option<String>,
    /// JSON schema type.
    pub kind: ToolParamType,
    /// Whether the parameter is required.
    pub required: bool,
}

impl ToolParam {
    /// Builds a parameter definition.
    pub fn new(name: &str, kind: ToolParamType, required: bool, description: Option<String>)
        -> (r: ToolParam)
        ensures
            r.name@ == name@,
            r.description == description,
            r.kind == kind,
            r.required == required,
    {
        ToolParam { name: String::from_str(name), description, kind, required }
    }
}

impl Clone for ToolParam {
    fn clone(&self) -> (r: Self)
        ensures
            r == *self,
    {
        ToolParam {
            name: self.name.clone(),
            description: crate::config::opt_string_clone(&self.description),
            kind: self.kind,
            required: self.required,
        }
    }
}

/// Callable tool function definition.
#[derive(Debug)]
pub struct ToolFunction {
    /// Function name.
    pub name: String,
    /// Function description.
    pub description: String,
    /// Parameter definitions.
    pub params: Vec<ToolParam>,
}

impl ToolFunction {
    /// Creates a function definition without parameters.
    pub fn new(name: &str, description: &str) -> (r: ToolFunction)
        ensures
            r.name@ == name@,
            r.description@ == description@,
            r.params@.len() == 0,
    {
        ToolFunction {
            name: String::from_str(name),
            description: String::from_str(description),
            params: Vec::new(),
        }
    }

    /// Appends one parameter definition.
    pub fn with_param(self, param: ToolParam) -> (r: ToolFunction)
        ensures
            r.name == self.name,
            r.description == self.description,
            r.params@ == self.params@.push(param),
    {
        let mut params = self.params;
        params.push(param);
        ToolFunction { name: self.name, description: self.description, params }
    }
}

/// The schema object of one parameter: its type, and its description when
/// one is given.
pub open spec fn spec_param_def(p: ToolParam) -> JsonV {
    let base = seq![("type"@, JsonV::Str(p.kind.spec_str()))];
    if p.description is Some {
        JsonV::Obj(base.push(("description"@, JsonV::Str(p.description->0@))))
    } else {
        JsonV::Obj(base)
    }
}

/// The `properties` object of a schema: one entry per parameter, in
/// declaration order.
pub open spec fn spec_properties(params: Seq<ToolParam>) -> JsonV {
    JsonV::Obj(Seq::new(params.len(), |i: int| (params[i].name@, spec_param_def(params[i]))))
}

/// The names of the required parameters, in declaration order.
pub open spec fn spec_required_names(params: Seq<ToolParam>) -> Seq<JsonV>
    decreases params,
{
    if params.len() == 0 {
        Seq::empty()
    } else if params.last().required {
        spec_required_names(params.drop_last()).push(JsonV::Str(params.last().name@))
    } else {
        spec_required_names(params.drop_last())
    }
}

/// The whole parameters schema of a function: an object schema with its
/// properties, and the required-name list when any parameter is required.
pub open spec fn spec_schema(params: Seq<ToolParam>) -> JsonV {
    let base = seq![
        ("type"@, JsonV::Str("object"@)),
        ("properties"@, spec_properties(params)),
    ];
    if spec_required_names(params).len() > 0 {
        JsonV::Obj(base.push(("required"@, JsonV::Arr(spec_required_names(params)))))
    } else {
        JsonV::Obj(base)
    }
}

impl ToolFunction {
    /// Builds the JSON schema of this function's parameters.
    #[verifier::loop_isolation(false)]
    fn to_schema(&self) -> (r: JsonValue)
        ensures
            r@ == spec_schema(self.params@),
    {
        let mut properties: Vec<(String, JsonValue)> = Vec::new();
        let mut required: Vec<JsonValue> = Vec::new();
        let mut i: usize = 0;
        while i < self.params.len()
            invariant
                i <= self.params@.len(),
                spec_view_fields(properties@) =~= Seq::new(
                    i as nat,
                    |j: int| (self.params@[j].name@, spec_param_def(self.params@[j])),
                ),
                spec_view_list(required@) =~= spec_required_names(
                    self.params@.subrange(0, i as int),
                ),
            decreases self.params@.len() - i,
        {
            let param = &self.params[i];
            let mut def: Vec<(String, JsonValue)> = Vec::new();
            def.push(
                (String::from_str("type"), JsonValue::Str(String::from_str(param.kind.as_str()))),
            );
            if let Some(description) = &param.description {
                def.push((String::from_str("description"), JsonValue::Str(description.clone())));
            }
            let def_obj = JsonValue::Obj(def);
            proof {
                lemma_view_fields_index(def_obj->Obj_0@, 0);
                if param.description is Some {
                    lemma_view_fields_index(def_obj->Obj_0@, 1);
                }
                assert(spec_view_fields(def_obj->Obj_0@) =~= spec_param_def(
                    self.params@[i as int],
                )->Obj_0);
                assert(def_obj@ == spec_param_def(self.params@[i as int]));
            }
            let ghost prev_props = properties@;
            properties.push((param.name.clone(), def_obj));
            proof {
                assert(properties@.drop_last() =~= prev_props);
                assert(spec_view_fields(properties@) =~= Seq::new(
                    (i + 1) as nat,
                    |j: int| (self.params@[j].name@, spec_param_def(self.params@[j])),
                ));
            }
            let ghost prev_req = required@;
            if param.required {
                required.push(JsonValue::Str(param.name.clone()));
                proof {
                    assert(required@.drop_last() =~= prev_req);
                    assert(required@.last()@ == JsonV::Str(self.params@[i as int].name@));
                    assert(spec_view_list(required@) == spec_view_list(prev_req).push(
                        JsonV::Str(self.params@[i as int].name@),
                    ));
                }
            }
            i = i + 1;
            proof {
                assert(self.params@.subrange(0, i as int).drop_last() =~= self.params@.subrange(
                    0,
                    i - 1,
                ));
                assert(self.params@.subrange(0, i as int).last() == self.params@[i - 1]);
                assert(spec_view_list(required@) =~= spec_required_names(
                    self.params@.subrange(0, i as int),
                ));
            }
        }
        proof {
            assert(self.params@.subrange(0, self.params@.len() as int) =~= self.params@);
        }
        let mut schema: Vec<(String, JsonValue)> = Vec::new();
        schema.push(
            (String::from_str("type"), JsonValue::Str(String::from_str("object"))),
        );
        schema.push((String::from_str("properties"), JsonValue::Obj(properties)));
        let has_required = required.len() > 0;
        proof {
            crate::json::lemma_view_list_len(required@);
        }
        if has_required {
            schema.push((String::from_str("required"), JsonValue::Arr(required)));
        }
        let r = JsonValue::Obj(schema);
        proof {
            lemma_view_fields_index(r->Obj_0@, 0);
            lemma_view_fields_index(r->Obj_0@, 1);
            if has_required {
                lemma_view_fields_index(r->Obj_0@, 2);
            }
            assert(spec_view_fields(r->Obj_0@) =~= spec_schema(self.params@)->Obj_0);
        }
        r
    }
}

/// Tool wrapper matching the chat-completions function-calling schema.
#[derive(Debug)]
pub struct ToolDefinition {
    /// Function declaration.
    pub function: ToolFunction,
}

/// The JSON declaration of one tool.
pub open spec fn spec_tool_json(function: ToolFunction) -> JsonV {
    JsonV::Obj(
        seq![
            ("type"@, JsonV::Str("function"@)),
            (
                "function"@,
                JsonV::Obj(
                    seq![
                        ("name"@, JsonV::Str(function.name@)),
                        ("description"@, JsonV::Str(function.description@)),
                        ("parameters"@, spec_schema(function.params@)),
                    ],
                ),
            ),
        ],
    )
}

impl ToolDefinition {
    /// Wraps a function definition as a tool.
    pub fn from_function(function: ToolFunction) -> (r: ToolDefinition)
        ensures
            r.function == function,
    {
        ToolDefinition { function }
    }

    /// Serializes the tool declaration to JSON.
    pub fn to_json(&self) -> (r: JsonValue)
        ensures
            r@ == spec_tool_json(self.function),
    {
        let mut inner: Vec<(String, JsonValue)> = Vec::new();
        inner.push((String::from_str("name"), JsonValue::Str(self.function.name.clone())));
        inner.push(
            (String::from_str("description"), JsonValue::Str(self.function.description.clone())),
        );
        inner.push((String::from_str("parameters"), self.function.to_schema()));
        let inner_obj = JsonValue::Obj(inner);
        proof {
            lemma_view_fields_index(inner_obj->Obj_0@, 0);
            lemma_view_fields_index(inner_obj->Obj_0@, 1);
            lemma_view_fields_index(inner_obj->Obj_0@, 2);
            assert(spec_view_fields(inner_obj->Obj_0@) =~= spec_tool_json(self.function)->Obj_0[1].1
                ->Obj_0);
        }
        let mut fields: Vec<(String, JsonValue)> = Vec::new();
        fields.push((String::from_str("type"), JsonValue::Str(String::from_str("function"))));
        fields.push((String::from_str("function"), inner_obj));
        let r = JsonValue::Obj(fields);
        proof {
            lemma_view_fields_index(r->Obj_0@, 0);
            lemma_view_fields_index(r->Obj_0@, 1);
            assert(spec_view_fields(r->Obj_0@) =~= spec_tool_json(self.function)->Obj_0);
        }
        r
    }
}

/// Tool call emitted by a model.
#[derive(Debug)]
pub struct ToolCall {
    /// Provider-generated call id.
    pub id: String,
    /// Tool/function name.
    pub name: String,
    /// Arguments payload.
    pub args: JsonValue,
}

impl Clone for ToolCall {
    fn clone(&self) -> (r: Self)
        ensures
            r.id == self.id,
            r.name == self.name,
            r.args@ == self.args@,
    {
        ToolCall { id: self.id.clone(), name: self.name.clone(), args: self.args.clone() }
    }
}

/// The textual form of a call's arguments: a string payload stands as
/// itself, any other document is rendered compactly.
pub open spec fn spec_args_string(args: JsonV) -> Seq<char> {
    match args {
        JsonV::Str(s) => s,
        other => spec_json_chars(other),
    }
}

/// The JSON payload of one tool call.
pub open spec fn spec_tool_call_json(c: ToolCall) -> JsonV {
    JsonV::Obj(
        seq![
            ("id"@, JsonV::Str(c.id@)),
            ("type"@, JsonV::Str("function"@)),
            (
                "function"@,
                JsonV::Obj(
                    seq![
                        ("name"@, JsonV::Str(c.name@)),
                        ("arguments"@, JsonV::Str(spec_args_string(c.args@))),
                    ],
                ),
            ),
        ],
    )
}

impl ToolCall {
    /// Renders the arguments payload as text.
    fn args_as_string(&self) -> (r: String)
        ensures
            r@ == spec_args_string(self.args@),
    {
        match &self.args {
            JsonValue::Str(value) => value.clone(),
            other => json_to_string(other),
        }
    }

    /// Serializes the tool call payload to provider JSON format.
    pub fn to_json(&self) -> (r: JsonValue)
        ensures
            r@ == spec_tool_call_json(*self),
    {
        let mut inner: Vec<(String, JsonValue)> = Vec::new();
        inner.push((String::from_str("name"), JsonValue::Str(self.name.clone())));
        inner.push((String::from_str("arguments"), JsonValue::Str(self.args_as_string())));
        let inner_obj = JsonValue::Obj(inner);
        proof {
            lemma_view_fields_index(inner_obj->Obj_0@, 0);
            lemma_view_fields_index(inner_obj->Obj_0@, 1);
            assert(spec_view_fields(inner_obj->Obj_0@) =~= spec_tool_call_json(*self)->Obj_0[2].1
                ->Obj_0);
        }
        let mut fields: Vec<(String, JsonValue)> = Vec::new();
        fields.push((String::from_str("id"), JsonValue::Str(self.id.clone())));
        fields.push((String::from_str("type"), JsonValue::Str(String::from_str("function"))));
        fields.push((String::from_str("function"), inner_obj));
        let r = JsonValue::Obj(fields);
        proof {
            lemma_view_fields_index(r->Obj_0@, 0);
            lemma_view_fields_index(r->Obj_0@, 1);
            lemma_view_fields_index(r->Obj_0@, 2);
            assert(spec_view_fields(r->Obj_0@) =~= spec_tool_call_json(*self)->Obj_0);
        }
        r
    }
}

/// The base64 text of a byte sequence under the standard padded alphabet.
pub uninterp spec fn spec_base64_of(bytes: Seq<u8>) -> Seq<char>;

/// A decoded image. The crate carries such a value through without reading
/// it.
#[verifier::external_type_specification]
#[verifier::external_body]
pub struct ExDynamicImage(image::DynamicImage);

/// Relies on `image::load_from_memory`: guesses the format and decodes the
/// bytes into an image, or reports why it cannot.
#[verifier::external_body]
fn decode_image(bytes: &[u8]) -> (r: Result<image::DynamicImage, String>)
{
    image::load_from_memory(bytes).map_err(|err| format!("{err}"))
}

/// Relies on `image::DynamicImage::write_to` with the PNG format: encodes
/// the image as PNG bytes, or reports why it cannot.
#[verifier::external_body]
fn encode_png(image: &image::DynamicImage) -> (r: Result<Vec<u8>, String>)
{
    let mut buffer = Vec::new();
    match image.write_to(&mut Cursor::new(&mut buffer), image::ImageOutputFormat::Png) {
        Ok(()) => Ok(buffer),
        Err(err) => Err(format!("{err}")),
    }
}

/// Relies on `base64::engine::general_purpose::STANDARD`: encodes bytes in
/// the standard padded alphabet, four characters for every three bytes.
#[verifier::external_body]
fn base64_encode(bytes: &Vec<u8>) -> (r: String)
    ensures
        r@ == spec_base64_of(bytes@),
        r@.len() == 4 * ((bytes@.len() + 2) / 3),
{
    base64::engine::general_purpose::STANDARD.encode(bytes)
}

/// Normalizes arbitrary image bytes to PNG and returns their base64 text:
/// the result, when the bytes decode as an image, is the standard padded
/// base64 of the re-encoded PNG bytes.
pub fn encode_image_base64_from_bytes(bytes: &[u8]) -> (r: Result<String, String>)
    ensures
        r matches Ok(s) ==> exists|png: Seq<u8>| s@ == spec_base64_of(png),
{
    let image = match decode_image(bytes) {
        Ok(image) => image,
        Err(err) => {
            return Err(err);
        },
    };
    let buffer = match encode_png(&image) {
        Ok(buffer) => buffer,
        Err(err) => {
            return Err(err);
        },
    };
    let encoded = base64_encode(&buffer);
    proof {
        assert(encoded@ == spec_base64_of(buffer@));
    }
    Ok(encoded)
}

} // verus!
