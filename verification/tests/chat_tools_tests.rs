use base64::Engine;
use mpipe::ai::AIMessage;
use mpipe::chat_models::{parse_invoke_response, parse_tool_calls, ChatFireworks, ChatMessage};
use mpipe::embeddings::FireworksEmbeddings;
use mpipe::human::HumanMessage;
use mpipe::json::{json_to_string, JsonValue};
use mpipe::temp::Temp;
use mpipe::tools::{
    encode_image_base64_from_bytes, ToolCall, ToolDefinition, ToolFunction, ToolParam,
    ToolParamType,
};

fn parse(s: &str) -> serde_json::Value {
    serde_json::from_str(s).expect("the renderer must emit valid JSON")
}

fn convert(v: &serde_json::Value) -> JsonValue {
    match v {
        serde_json::Value::Null => JsonValue::Null,
        serde_json::Value::Bool(b) => JsonValue::Bool(*b),
        serde_json::Value::Number(n) => match n.as_u64() {
            Some(u) => JsonValue::UInt(u),
            None => JsonValue::Dec(Temp {
                milli: 0,
                extra: true,
                neg: false,
            }),
        },
        serde_json::Value::String(s) => JsonValue::Str(s.clone()),
        serde_json::Value::Array(items) => JsonValue::Arr(items.iter().map(convert).collect()),
        serde_json::Value::Object(fields) => JsonValue::Obj(
            fields.iter().map(|(k, v)| (k.clone(), convert(v))).collect(),
        ),
    }
}

#[test]
fn tool_definition_renders_the_function_calling_schema() {
    let function = ToolFunction::new("get_weather", "Look a forecast up")
        .with_param(ToolParam::new(
            "city",
            ToolParamType::String,
            true,
            Some(String::from("City name")),
        ))
        .with_param(ToolParam::new("days", ToolParamType::Integer, false, None));
    let tool = ToolDefinition::from_function(function);
    let body = parse(&json_to_string(&tool.to_json()));
    assert_eq!(body["type"], serde_json::Value::String(String::from("function")));
    assert_eq!(
        body["function"]["name"],
        serde_json::Value::String(String::from("get_weather"))
    );
    let params = &body["function"]["parameters"];
    assert_eq!(params["type"], serde_json::Value::String(String::from("object")));
    assert_eq!(
        params["properties"]["city"]["type"],
        serde_json::Value::String(String::from("string"))
    );
    assert_eq!(
        params["properties"]["city"]["description"],
        serde_json::Value::String(String::from("City name"))
    );
    assert_eq!(
        params["properties"]["days"]["type"],
        serde_json::Value::String(String::from("integer"))
    );
    assert!(params["properties"]["days"].get("description").is_none());
    let required = params["required"].as_array().expect("required should be an array");
    assert_eq!(required.len(), 1);
    assert_eq!(required[0], serde_json::Value::String(String::from("city")));
}

#[test]
fn schema_without_required_params_omits_the_required_list() {
    let function = ToolFunction::new("ping", "No arguments")
        .with_param(ToolParam::new("note", ToolParamType::String, false, None));
    let body = parse(&json_to_string(&ToolDefinition::from_function(function).to_json()));
    assert!(body["function"]["parameters"].get("required").is_none());
}

#[test]
fn tool_call_round_trips_string_and_structured_arguments() {
    let structured = ToolCall {
        id: String::from("call-1"),
        name: String::from("get_weather"),
        args: JsonValue::Obj(vec![(String::from("city"), JsonValue::Str(String::from("Oslo")))]),
    };
    let body = parse(&json_to_string(&structured.to_json()));
    assert_eq!(body["id"], serde_json::Value::String(String::from("call-1")));
    assert_eq!(
        body["function"]["arguments"],
        serde_json::Value::String(String::from("{\"city\":\"Oslo\"}"))
    );

    let textual = ToolCall {
        id: String::from("call-2"),
        name: String::from("echo"),
        args: JsonValue::Str(String::from("{\"raw\":1}")),
    };
    let body = parse(&json_to_string(&textual.to_json()));
    assert_eq!(
        body["function"]["arguments"],
        serde_json::Value::String(String::from("{\"raw\":1}"))
    );
}

#[test]
fn chat_messages_render_their_roles_and_payloads() {
    let user = ChatMessage::user(HumanMessage::new("hello"));
    let body = parse(&json_to_string(&user.to_json()));
    assert_eq!(body["role"], serde_json::Value::String(String::from("user")));
    assert_eq!(body["content"], serde_json::Value::String(String::from("hello")));

    let tool = ChatMessage::tool_result("call-9", "42");
    let body = parse(&json_to_string(&tool.to_json()));
    assert_eq!(body["role"], serde_json::Value::String(String::from("tool")));
    assert_eq!(body["tool_call_id"], serde_json::Value::String(String::from("call-9")));

    let assistant = ChatMessage::assistant_from_ai(&AIMessage {
        content: String::from(""),
        tool_calls: vec![ToolCall {
            id: String::from("call-3"),
            name: String::from("lookup"),
            args: JsonValue::Str(String::from("{}")),
        }],
    });
    let body = parse(&json_to_string(&assistant.to_json()));
    assert_eq!(body["role"], serde_json::Value::String(String::from("assistant")));
    assert_eq!(body["content"], serde_json::Value::Null);
    assert_eq!(
        body["tool_calls"][0]["function"]["name"],
        serde_json::Value::String(String::from("lookup"))
    );
}

#[test]
fn multipart_user_messages_keep_their_parts() {
    let message = ChatMessage::user_parts(vec![
        JsonValue::Str(String::from("look at this")),
        JsonValue::Obj(vec![(String::from("image"), JsonValue::Str(String::from("data:...")))]),
    ]);
    let body = parse(&json_to_string(&message.to_json()));
    let parts = body["content"].as_array().expect("content should be an array");
    assert_eq!(parts.len(), 2);
    assert_eq!(parts[0], serde_json::Value::String(String::from("look at this")));
}

#[test]
fn invoke_payload_carries_model_temperature_and_tools() {
    let client = ChatFireworks::new("kimi", Temp::from_milli(700));
    let messages = vec![ChatMessage::user_text("hi")];
    let body = parse(&json_to_string(&client.invoke_payload(&messages)));
    assert_eq!(body["model"], serde_json::Value::String(String::from("kimi")));
    assert_eq!(body["temperature"], serde_json::Value::from(0.7));
    assert!(body.get("tools").is_none());

    let bound = client.bind_tools(vec![ToolDefinition::from_function(ToolFunction::new(
        "f", "d",
    ))]);
    let body = parse(&json_to_string(&bound.invoke_payload(&messages)));
    assert_eq!(body["tools"].as_array().map(|a| a.len()), Some(1));
}

#[test]
fn invoke_response_yields_content_and_tool_calls() {
    let body = convert(&parse(
        "{\"choices\":[{\"message\":{\"content\":\"sunny\",\"tool_calls\":[{\"id\":\"c1\",\"function\":{\"name\":\"get_weather\",\"arguments\":\"{\\\"city\\\":\\\"Oslo\\\"}\"}},{\"id\":\"c2\",\"function\":{\"name\":\"\"}}]}}]}",
    ));
    let message = parse_invoke_response(&body);
    assert_eq!(message.content, "sunny");
    assert_eq!(message.tool_calls.len(), 1);
    assert_eq!(message.tool_calls[0].id, "c1");
    assert_eq!(message.tool_calls[0].name, "get_weather");
    match &message.tool_calls[0].args {
        JsonValue::Str(raw) => assert_eq!(raw, "{\"city\":\"Oslo\"}"),
        _ => panic!("string arguments stay textual"),
    }
}

#[test]
fn invoke_response_without_content_reads_as_empty() {
    let body = convert(&parse("{\"choices\":[]}"));
    let message = parse_invoke_response(&body);
    assert_eq!(message.content, "");
    assert!(message.tool_calls.is_empty());
}

#[test]
fn tool_calls_outside_an_array_are_ignored() {
    let body = convert(&parse("{\"tool_calls\":{\"not\":\"an array\"}}"));
    assert!(parse_tool_calls(&body).is_empty());
    let body = convert(&parse("{}"));
    assert!(parse_tool_calls(&body).is_empty());
}

#[test]
fn embeddings_payload_names_model_and_input() {
    let client = FireworksEmbeddings::new("embed-model");
    let body = parse(&json_to_string(&client.embeddings_payload("some text")));
    assert_eq!(body["model"], serde_json::Value::String(String::from("embed-model")));
    assert_eq!(body["input"], serde_json::Value::String(String::from("some text")));
}

#[test]
fn image_bytes_round_trip_through_png_and_base64() {
    // A 2x1 image encoded as PNG by the image crate itself.
    let mut source = Vec::new();
    let img = image::DynamicImage::ImageRgb8(image::RgbImage::from_raw(
        2,
        1,
        vec![255, 0, 0, 0, 0, 255],
    )
    .expect("raw buffer matches the dimensions"));
    img.write_to(
        &mut std::io::Cursor::new(&mut source),
        image::ImageOutputFormat::Png,
    )
    .expect("png encoding should succeed");

    let encoded = encode_image_base64_from_bytes(&source).expect("valid image bytes");
    // The result is base64 of re-encoded PNG bytes: decoding it yields a PNG
    // signature, not the base64 text or the raw pixels.
    let decoded = base64::engine::general_purpose::STANDARD
        .decode(encoded.as_bytes())
        .expect("the helper returns base64 text");
    assert_eq!(&decoded[..8], &[0x89, 0x50, 0x4e, 0x47, 0x0d, 0x0a, 0x1a, 0x0a]);

    let err = encode_image_base64_from_bytes(&[1, 2, 3]).expect_err("not an image");
    assert!(!err.is_empty());
}
