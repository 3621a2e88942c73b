use mpipe::envelope::{
    dry_run_output, dry_run_usage_line, json_output, json_usage, request_json, usage_line,
    verbose_lines,
};
use mpipe::json::{json_to_string, JsonValue};
use mpipe::provider::{
    api_key_env, endpoint, AskOptions, ChatMessage, Provider, ProviderError, Usage,
};
use mpipe::resolve::{OutputFormat, PromptSource, RequestConfig};
use mpipe::retry::{NetErrorKind, RequestFailure};
use mpipe::temp::{parse_temp, temp_to_string, Temp};
use mpipe::text::{parse_u32, parse_u64, str_eq, trim_string, u64_to_string};
use mpipe::wire::{build_chat_request, map_failure, parse_chat_response};

fn sample_config() -> RequestConfig {
    RequestConfig {
        provider: Provider::Fireworks,
        model: String::from("accounts/fireworks/models/kimi-k2-instruct-0905"),
        temperature: None,
        max_tokens: None,
        timeout_secs: None,
        retries: 0,
        retry_delay_ms: 500,
        output: OutputFormat::Text,
        show_usage: false,
        system: None,
    }
}

fn parse(s: &str) -> serde_json::Value {
    serde_json::from_str(s).expect("the renderer must emit valid JSON")
}

#[test]
fn dry_run_succeeds_without_api_key() {
    // No credential takes part: the builder is never handed one.
    let cfg = sample_config();
    let messages = vec![ChatMessage::user("2+2?")];
    let rendered = json_to_string(&dry_run_output(&cfg, &messages));
    let body = parse(&rendered);
    assert_eq!(body["dry_run"], serde_json::Value::Bool(true));
    assert_eq!(body["provider"], serde_json::Value::String(String::from("fireworks")));
    assert!(body["model"].as_str().is_some());
    assert_eq!(
        body["authorization"],
        serde_json::Value::String(String::from("Bearer ***REDACTED***"))
    );
}

#[test]
fn dry_run_show_usage_prints_unavailable() {
    assert_eq!(dry_run_usage_line(), "usage: unavailable latency_ms=0 (dry-run)");
}

#[test]
fn long_prompt_with_max_tokens_is_reflected_in_dry_run_request() {
    let prompt = "x".repeat(24_000);
    let mut cfg = sample_config();
    cfg.max_tokens = Some(128);
    let messages = vec![ChatMessage::user(&prompt)];
    let body = parse(&json_to_string(&dry_run_output(&cfg, &messages)));
    let rendered_messages = body["messages"].as_array().expect("messages should be an array");
    assert_eq!(rendered_messages.len(), 1);
    assert_eq!(rendered_messages[0]["role"], serde_json::Value::String(String::from("user")));
    assert_eq!(rendered_messages[0]["content"], serde_json::Value::String(prompt));
    assert_eq!(body["request"]["max_tokens"], serde_json::Value::from(128));
}

#[test]
fn dry_run_and_live_envelopes_share_the_request_shape() {
    let mut cfg = sample_config();
    cfg.temperature = Some(parse_temp("0.6").unwrap());
    cfg.timeout_secs = Some(21);
    cfg.retries = 2;
    let messages = vec![ChatMessage::user("hello")];
    let dry = parse(&json_to_string(&dry_run_output(&cfg, &messages)));
    let live = parse(&json_to_string(&json_output(
        &cfg,
        String::from("four"),
        17,
        &None,
    )));
    assert_eq!(dry["request"], live["request"]);
    let request = &dry["request"];
    assert_eq!(request["temperature"], serde_json::Value::from(0.6));
    assert_eq!(request["timeout_secs"], serde_json::Value::from(21));
    assert_eq!(request["retries"], serde_json::Value::from(2));
    assert_eq!(request["retry_delay_ms"], serde_json::Value::from(500));
    assert_eq!(request["max_tokens"], serde_json::Value::Null);
}

#[test]
fn json_output_carries_answer_latency_and_usage() {
    let cfg = sample_config();
    let usage = Some(Usage {
        prompt_tokens: Some(12),
        completion_tokens: None,
        total_tokens: Some(20),
    });
    let body = parse(&json_to_string(&json_output(
        &cfg,
        String::from("the answer"),
        321,
        &usage,
    )));
    assert_eq!(body["answer"], serde_json::Value::String(String::from("the answer")));
    assert_eq!(body["latency_ms"], serde_json::Value::from(321));
    assert_eq!(body["usage"]["prompt_tokens"], serde_json::Value::from(12));
    assert_eq!(body["usage"]["completion_tokens"], serde_json::Value::Null);
    assert_eq!(body["usage"]["total_tokens"], serde_json::Value::from(20));
}

#[test]
fn usage_without_any_count_renders_as_null() {
    let cfg = sample_config();
    let usage = Some(Usage {
        prompt_tokens: None,
        completion_tokens: None,
        total_tokens: None,
    });
    let body = parse(&json_to_string(&json_output(&cfg, String::from("a"), 1, &usage)));
    assert_eq!(body["usage"], serde_json::Value::Null);
    assert!(json_usage(&usage.unwrap()).is_none());
}

#[test]
fn usage_line_reports_counts_or_unavailable() {
    let usage = Some(Usage {
        prompt_tokens: Some(3),
        completion_tokens: None,
        total_tokens: Some(9),
    });
    assert_eq!(
        usage_line(&usage, 42),
        "usage: prompt_tokens=3 completion_tokens=n/a total_tokens=9 latency_ms=42"
    );
    assert_eq!(usage_line(&None, 7), "usage: unavailable latency_ms=7");
}

#[test]
fn verbose_does_not_leak_api_key() {
    let cfg = sample_config();
    let messages = vec![ChatMessage::user("hello")];
    let (line1, line2) = verbose_lines(&cfg, true, PromptSource::Argument, &messages, true);
    assert!(line1.contains("api_key_present=true"));
    assert!(!line1.contains("fireworks-secret-value"));
    assert!(!line2.contains("fireworks-secret-value"));
    assert!(line2.contains("backoff=exponential"));
    assert!(line1.contains("messages=1 chars=5"));
}

#[test]
fn renderer_emits_compact_json_with_escapes() {
    let value = JsonValue::Obj(vec![
        (String::from("content"), JsonValue::Str(String::from("first"))),
        (
            String::from("tricky"),
            JsonValue::Str(String::from("a\"b\\c\nd\te\u{1}\u{8}\u{c}")),
        ),
        (String::from("flag"), JsonValue::Bool(false)),
        (String::from("count"), JsonValue::UInt(19)),
        (String::from("nothing"), JsonValue::Null),
        (
            String::from("nested"),
            JsonValue::Arr(vec![JsonValue::UInt(1), JsonValue::Dec(Temp::from_milli(1200))]),
        ),
    ]);
    let rendered = json_to_string(&value);
    assert_eq!(
        rendered,
        "{\"content\":\"first\",\"tricky\":\"a\\\"b\\\\c\\nd\\te\\u0001\\b\\f\",\"flag\":false,\"count\":19,\"nothing\":null,\"nested\":[1,1.2]}"
    );
    // What the renderer writes, a JSON parser reads back unchanged.
    let reparsed = parse(&rendered);
    assert_eq!(
        reparsed["tricky"],
        serde_json::Value::String(String::from("a\"b\\c\nd\te\u{1}\u{8}\u{c}"))
    );
}

#[test]
fn chat_request_includes_options_only_when_set() {
    let model = "gpt-4o-mini";
    let messages = vec![ChatMessage::system("be brief"), ChatMessage::user("hi")];
    let bare = AskOptions::default();
    let body = parse(&json_to_string(&build_chat_request(model, &messages, &bare)));
    assert_eq!(body["model"], serde_json::Value::String(String::from(model)));
    assert_eq!(body["messages"][0]["role"], serde_json::Value::String(String::from("system")));
    assert_eq!(body["messages"][1]["content"], serde_json::Value::String(String::from("hi")));
    assert!(body.get("temperature").is_none());
    assert!(body.get("max_tokens").is_none());

    let mut rich = AskOptions::default();
    rich.temperature = Some(parse_temp("1.5").unwrap());
    rich.max_tokens = Some(64);
    let body = parse(&json_to_string(&build_chat_request(model, &messages, &rich)));
    assert_eq!(body["temperature"], serde_json::Value::from(1.5));
    assert_eq!(body["max_tokens"], serde_json::Value::from(64));
}

// Build a response document the way the transport feeds one in.
fn convert(v: &serde_json::Value) -> JsonValue {
    match v {
        serde_json::Value::Null => JsonValue::Null,
        serde_json::Value::Bool(b) => JsonValue::Bool(*b),
        serde_json::Value::Number(n) => match n.as_u64() {
            Some(u) => JsonValue::UInt(u),
            None => JsonValue::Dec(Temp {
                milli: 0,
                extra: true,
                neg: n.as_f64().unwrap_or(0.0) < 0.0,
            }),
        },
        serde_json::Value::String(s) => JsonValue::Str(s.clone()),
        serde_json::Value::Array(items) => JsonValue::Arr(items.iter().map(convert).collect()),
        serde_json::Value::Object(fields) => JsonValue::Obj(
            fields.iter().map(|(k, v)| (k.clone(), convert(v))).collect(),
        ),
    }
}

fn response_body(json: &str) -> JsonValue {
    convert(&serde_json::from_str::<serde_json::Value>(json).expect("test body must be JSON"))
}

#[test]
fn chat_response_yields_content_and_usage() {
    let body = response_body(
        "{\"choices\":[{\"message\":{\"content\":\"four\"}}],\"usage\":{\"prompt_tokens\":9,\"completion_tokens\":1,\"total_tokens\":10}}",
    );
    let response = parse_chat_response(Provider::Openai, &body).expect("should decode");
    assert_eq!(response.content, "four");
    let usage = response.usage.expect("usage was reported");
    assert_eq!(usage.prompt_tokens, Some(9));
    assert_eq!(usage.completion_tokens, Some(1));
    assert_eq!(usage.total_tokens, Some(10));
}

#[test]
fn chat_response_without_content_is_an_empty_response() {
    let body = response_body("{\"choices\":[{\"message\":{\"content\":\"\"}}]}");
    let err = parse_chat_response(Provider::Fireworks, &body).unwrap_err();
    assert!(matches!(err, ProviderError::EmptyResponse { provider: Provider::Fireworks }));

    let body = response_body("{\"choices\":[]}");
    let err = parse_chat_response(Provider::Fireworks, &body).unwrap_err();
    assert!(matches!(err, ProviderError::EmptyResponse { .. }));

    let body = response_body("{\"choices\":[{\"message\":{\"content\":null}}]}");
    let err = parse_chat_response(Provider::Openai, &body).unwrap_err();
    assert!(matches!(err, ProviderError::EmptyResponse { .. }));
}

#[test]
fn chat_response_outside_the_schema_is_a_decode_failure() {
    let body = response_body("{\"unrelated\":true}");
    let err = parse_chat_response(Provider::Openai, &body).unwrap_err();
    match err {
        ProviderError::Request { provider, message } => {
            assert_eq!(provider, Provider::Openai);
            assert_eq!(message, "error decoding response body");
        }
        _ => panic!("a missing choices array is a decode failure"),
    }

    let body = response_body("{\"choices\":[{\"message\":{\"content\":7}}]}");
    assert!(matches!(
        parse_chat_response(Provider::Openai, &body),
        Err(ProviderError::Request { .. })
    ));

    let body = response_body("{\"choices\":[],\"usage\":{\"prompt_tokens\":\"many\"}}");
    assert!(matches!(
        parse_chat_response(Provider::Openai, &body),
        Err(ProviderError::Request { .. })
    ));
}

#[test]
fn transport_failures_map_to_provider_errors() {
    let api = map_failure(
        Provider::Fireworks,
        RequestFailure::Api {
            status: 503,
            body: String::from("overloaded"),
        },
    );
    assert_eq!(api.message(), "fireworks API error 503: overloaded");

    let net = map_failure(
        Provider::Openai,
        RequestFailure::Request {
            kind: NetErrorKind::Timeout,
            message: String::from("deadline elapsed"),
        },
    );
    assert_eq!(net.message(), "openai request failed: deadline elapsed");

    let missing = ProviderError::MissingApiKey {
        provider: Provider::Openai,
        key_env: String::from("OPENAI_API_KEY"),
    };
    assert_eq!(missing.message(), "OPENAI_API_KEY is not set in the environment");

    let empty = ProviderError::EmptyResponse {
        provider: Provider::Fireworks,
    };
    assert_eq!(empty.message(), "fireworks response did not contain message content");
}

#[test]
fn provider_registry_is_fixed() {
    assert_eq!(Provider::Openai.as_str(), "openai");
    assert_eq!(Provider::Fireworks.as_str(), "fireworks");
    assert_eq!(endpoint(Provider::Openai), "https://api.openai.com/v1/chat/completions");
    assert_eq!(
        endpoint(Provider::Fireworks),
        "https://api.fireworks.ai/inference/v1/chat/completions"
    );
    assert_eq!(api_key_env(Provider::Openai), "OPENAI_API_KEY");
    assert_eq!(api_key_env(Provider::Fireworks), "FIREWORKS_API_KEY");
}

#[test]
fn temperatures_parse_and_render_as_decimals() {
    assert_eq!(parse_temp("0.6"), Some(Temp::from_milli(600)));
    assert_eq!(parse_temp("2"), Some(Temp::from_milli(2000)));
    assert_eq!(parse_temp("+1.05"), Some(Temp::from_milli(1050)));
    assert_eq!(parse_temp("1."), Some(Temp::from_milli(1000)));
    assert_eq!(parse_temp(".5"), Some(Temp::from_milli(500)));
    assert_eq!(parse_temp(""), None);
    assert_eq!(parse_temp("."), None);
    assert_eq!(parse_temp("1.2.3"), None);
    assert_eq!(parse_temp("abc"), None);
    let negative = parse_temp("-0.5").unwrap();
    assert!(negative.neg);
    assert!(!negative.in_range());
    // Digits beyond the third fractional place only matter at the boundary.
    let above = parse_temp("2.0005").unwrap();
    assert!(!above.in_range());
    let below = parse_temp("1.9995").unwrap();
    assert!(below.in_range());

    assert_eq!(temp_to_string(&Temp::from_milli(600)), "0.6");
    assert_eq!(temp_to_string(&Temp::from_milli(1200)), "1.2");
    assert_eq!(temp_to_string(&Temp::from_milli(2000)), "2.0");
    assert_eq!(temp_to_string(&Temp::from_milli(1050)), "1.05");
    assert_eq!(temp_to_string(&Temp::from_milli(3100)), "3.1");
}

#[test]
fn text_utilities_match_their_contracts() {
    assert_eq!(trim_string("  spaced\tout \n"), "spaced\tout");
    assert_eq!(trim_string(""), "");
    assert_eq!(trim_string("\u{a0}wide\u{3000}"), "wide");
    assert_eq!(trim_string("\u{2009}\u{85}"), "");
    assert_eq!(parse_u64("184467"), Some(184467));
    assert_eq!(parse_u64("+7"), Some(7));
    assert_eq!(parse_u64("18446744073709551615"), Some(u64::MAX));
    assert_eq!(parse_u64("18446744073709551616"), None);
    assert_eq!(parse_u64("7 "), None);
    assert_eq!(parse_u64(""), None);
    assert_eq!(parse_u32("4294967295"), Some(u32::MAX));
    assert_eq!(parse_u32("4294967296"), None);
    assert_eq!(u64_to_string(0), "0");
    assert_eq!(u64_to_string(30000), "30000");
    assert_eq!(u64_to_string(u64::MAX), "18446744073709551615");
    assert!(str_eq("same", "same"));
    assert!(!str_eq("same", "Same"));
}

#[test]
fn request_sub_object_lists_every_option_field() {
    let cfg = sample_config();
    let rendered = json_to_string(&request_json(&cfg));
    assert_eq!(
        rendered,
        "{\"temperature\":null,\"max_tokens\":null,\"timeout_secs\":null,\"retries\":0,\"retry_delay_ms\":500}"
    );
}
