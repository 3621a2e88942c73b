//! The rendered faces of one invocation: the dry-run envelope, the JSON
//! output envelope, and the usage side channel.
//!
//! Both envelopes embed the same `request` sub-object, built by one
//! function, so their field names and shapes cannot drift apart; the
//! dry-run envelope carries a fixed placeholder where a credential would
//! stand, and is built without ever being handed one.

use vstd::prelude::*;
use vstd::string::StringExecFns;
use crate::json::{
    JsonValue, JsonV, spec_view_fields, spec_view_list, spec_obj_get, spec_lookup,
    lemma_view_fields_index,
};
use crate::provider::{ChatMessage, Usage, spec_endpoint};
use crate::resolve::RequestConfig;
use crate::text::u64_to_string;

verus! {

/// The `request` sub-object shared by the dry-run and JSON output
/// envelopes: the echoed request options, absent ones as `null`.
pub open spec fn spec_request_json(cfg: RequestConfig) -> JsonV {
    JsonV::Obj(
        seq![
            (
                "temperature"@,
                match cfg.temperature {
                    Some(t) => JsonV::Dec(t),
                    None => JsonV::Null,
                },
            ),
            (
                "max_tokens"@,
                match cfg.max_tokens {
                    Some(v) => JsonV::UInt(v as u64),
                    None => JsonV::Null,
                },
            ),
            (
                "timeout_secs"@,
                match cfg.timeout_secs {
                    Some(v) => JsonV::UInt(v),
                    None => JsonV::Null,
                },
            ),
            ("retries"@, JsonV::UInt(cfg.retries as u64)),
            ("retry_delay_ms"@, JsonV::UInt(cfg.retry_delay_ms)),
        ],
    )
}

/// Builds the `request` sub-object of an envelope.
pub fn request_json(cfg: &RequestConfig) -> (r: JsonValue)
    ensures
        r@ == spec_request_json(*cfg),
{
    let mut fields: Vec<(String, JsonValue)> = Vec::new();
    fields.push(
        (
            String::from_str("temperature"),
            match cfg.temperature {
                Some(t) => JsonValue::Dec(t),
                None => JsonValue::Null,
            },
        ),
    );
    fields.push(
        (
            String::from_str("max_tokens"),
            match cfg.max_tokens {
                Some(v) => JsonValue::UInt(v as u64),
                None => JsonValue::Null,
            },
        ),
    );
    fields.push(
        (
            String::from_str("timeout_secs"),
            match cfg.timeout_secs {
                Some(v) => JsonValue::UInt(v),
                None => JsonValue::Null,
            },
        ),
    );
    fields.push((String::from_str("retries"), JsonValue::UInt(cfg.retries as u64)));
    fields.push((String::from_str("retry_delay_ms"), JsonValue::UInt(cfg.retry_delay_ms)));
    let r = JsonValue::Obj(fields);
    proof {
        lemma_view_fields_index(r->Obj_0@, 0);
        lemma_view_fields_index(r->Obj_0@, 1);
        lemma_view_fields_index(r->Obj_0@, 2);
        lemma_view_fields_index(r->Obj_0@, 3);
        lemma_view_fields_index(r->Obj_0@, 4);
        assert(spec_view_fields(r->Obj_0@) =~= spec_request_json(*cfg)->Obj_0);
    }
    r
}

/// The JSON shape of one chat message.
pub open spec fn spec_message_json(m: ChatMessage) -> JsonV {
    JsonV::Obj(seq![("role"@, JsonV::Str(m.role@)), ("content"@, JsonV::Str(m.content@))])
}

/// The JSON shape of a conversation: an array of messages in order.
pub open spec fn spec_messages_json(msgs: Seq<ChatMessage>) -> JsonV {
    JsonV::Arr(Seq::new(msgs.len(), |i: int| spec_message_json(msgs[i])))
}

/// Builds the JSON array of a conversation's messages.
pub fn messages_json(messages: &Vec<ChatMessage>) -> (r: JsonValue)
    ensures
        r@ == spec_messages_json(messages@),
{
    let mut items: Vec<JsonValue> = Vec::new();
    let mut i: usize = 0;
    while i < messages.len()
        invariant
            i <= messages.len(),
            spec_view_list(items@) =~= Seq::new(
                i as nat,
                |j: int| spec_message_json(messages@[j]),
            ),
        decreases messages.len() - i,
    {
        let mut fields: Vec<(String, JsonValue)> = Vec::new();
        fields.push((String::from_str("role"), JsonValue::Str(messages[i].role.clone())));
        fields.push((String::from_str("content"), JsonValue::Str(messages[i].content.clone())));
        let msg = JsonValue::Obj(fields);
        proof {
            lemma_view_fields_index(msg->Obj_0@, 0);
            lemma_view_fields_index(msg->Obj_0@, 1);
            assert(spec_view_fields(msg->Obj_0@) =~= spec_message_json(messages@[i as int])
                ->Obj_0);
            assert(msg@ == spec_message_json(messages@[i as int]));
        }
        let ghost prev_items = items@;
        items.push(msg);
        i = i + 1;
        proof {
            assert(items@.drop_last() =~= prev_items);
            assert(items@.last() == msg);
            assert(spec_view_list(items@) == spec_view_list(prev_items).push(msg@));
            assert(spec_view_list(items@) =~= Seq::new(
                i as nat,
                |j: int| spec_message_json(messages@[j]),
            ));
        }
    }
    let r = JsonValue::Arr(items);
    proof {
        assert(r@ == spec_messages_json(messages@));
    }
    r
}

/// The fixed placeholder rendered where a credential would stand.
pub open spec fn spec_redacted_authorization() -> Seq<char> {
    "Bearer ***REDACTED***"@
}

/// The dry-run envelope: everything the request would be, with the
/// credential replaced by a fixed placeholder. No credential takes part in
/// building it.
pub open spec fn spec_dry_run_json(cfg: RequestConfig, msgs: Seq<ChatMessage>) -> JsonV {
    JsonV::Obj(
        seq![
            ("dry_run"@, JsonV::Bool(true)),
            ("provider"@, JsonV::Str(cfg.provider.spec_name())),
            ("endpoint"@, JsonV::Str(spec_endpoint(cfg.provider))),
            ("model"@, JsonV::Str(cfg.model@)),
            ("messages"@, spec_messages_json(msgs)),
            ("request"@, spec_request_json(cfg)),
            ("output"@, JsonV::Str(cfg.output.spec_str())),
            ("show_usage"@, JsonV::Bool(cfg.show_usage)),
            ("authorization"@, JsonV::Str(spec_redacted_authorization())),
        ],
    )
}

/// Builds the dry-run envelope. It takes only the resolved configuration
/// and the messages: no credential is read, carried or rendered, and the
/// authorization field is the fixed placeholder.
pub fn dry_run_output(cfg: &RequestConfig, messages: &Vec<ChatMessage>) -> (r: JsonValue)
    ensures
        r@ == spec_dry_run_json(*cfg, messages@),
{
    let mut fields: Vec<(String, JsonValue)> = Vec::new();
    fields.push((String::from_str("dry_run"), JsonValue::Bool(true)));
    fields.push(
        (String::from_str("provider"), JsonValue::Str(String::from_str(cfg.provider.as_str()))),
    );
    fields.push(
        (
            String::from_str("endpoint"),
            JsonValue::Str(String::from_str(crate::provider::endpoint(cfg.provider))),
        ),
    );
    fields.push((String::from_str("model"), JsonValue::Str(cfg.model.clone())));
    fields.push((String::from_str("messages"), messages_json(messages)));
    fields.push((String::from_str("request"), request_json(cfg)));
    fields.push(
        (String::from_str("output"), JsonValue::Str(String::from_str(cfg.output.as_str()))),
    );
    fields.push((String::from_str("show_usage"), JsonValue::Bool(cfg.show_usage)));
    fields.push(
        (
            String::from_str("authorization"),
            JsonValue::Str(String::from_str("Bearer ***REDACTED***")),
        ),
    );
    let r = JsonValue::Obj(fields);
    proof {
        lemma_view_fields_index(r->Obj_0@, 0);
        lemma_view_fields_index(r->Obj_0@, 1);
        lemma_view_fields_index(r->Obj_0@, 2);
        lemma_view_fields_index(r->Obj_0@, 3);
        lemma_view_fields_index(r->Obj_0@, 4);
        lemma_view_fields_index(r->Obj_0@, 5);
        lemma_view_fields_index(r->Obj_0@, 6);
        lemma_view_fields_index(r->Obj_0@, 7);
        lemma_view_fields_index(r->Obj_0@, 8);
        assert(spec_view_fields(r->Obj_0@) =~= spec_dry_run_json(*cfg, messages@)->Obj_0);
    }
    r
}

/// The usage sub-object of the JSON output envelope, when any token count
/// was reported.
pub open spec fn spec_usage_json(u: Usage) -> JsonV {
    JsonV::Obj(
        seq![
            (
                "prompt_tokens"@,
                match u.prompt_tokens {
                    Some(v) => JsonV::UInt(v as u64),
                    None => JsonV::Null,
                },
            ),
            (
                "completion_tokens"@,
                match u.completion_tokens {
                    Some(v) => JsonV::UInt(v as u64),
                    None => JsonV::Null,
                },
            ),
            (
                "total_tokens"@,
                match u.total_tokens {
                    Some(v) => JsonV::UInt(v as u64),
                    None => JsonV::Null,
                },
            ),
        ],
    )
}

/// Whether a usage report carries any token count at all.
pub open spec fn spec_usage_present(u: Usage) -> bool {
    u.prompt_tokens is Some || u.completion_tokens is Some || u.total_tokens is Some
}

/// Turns a usage report into its JSON sub-object, or nothing when no token
/// count was reported at all.
pub fn json_usage(usage: &Usage) -> (r: Option<JsonValue>)
    ensures
        match r {
            Some(v) => spec_usage_present(*usage) && v@ == spec_usage_json(*usage),
            None => !spec_usage_present(*usage),
        },
{
    if usage.prompt_tokens.is_none() && usage.completion_tokens.is_none()
        && usage.total_tokens.is_none() {
        return None;
    }
    let mut fields: Vec<(String, JsonValue)> = Vec::new();
    fields.push(
        (
            String::from_str("prompt_tokens"),
            match usage.prompt_tokens {
                Some(v) => JsonValue::UInt(v as u64),
                None => JsonValue::Null,
            },
        ),
    );
    fields.push(
        (
            String::from_str("completion_tokens"),
            match usage.completion_tokens {
                Some(v) => JsonValue::UInt(v as u64),
                None => JsonValue::Null,
            },
        ),
    );
    fields.push(
        (
            String::from_str("total_tokens"),
            match usage.total_tokens {
                Some(v) => JsonValue::UInt(v as u64),
                None => JsonValue::Null,
            },
        ),
    );
    let r = JsonValue::Obj(fields);
    proof {
        lemma_view_fields_index(r->Obj_0@, 0);
        lemma_view_fields_index(r->Obj_0@, 1);
        lemma_view_fields_index(r->Obj_0@, 2);
        assert(spec_view_fields(r->Obj_0@) =~= spec_usage_json(*usage)->Obj_0);
    }
    Some(r)
}

/// The JSON output envelope: provider, model, answer, latency, the echoed
/// request sub-object, and usage when any was reported.
pub open spec fn spec_json_output(
    cfg: RequestConfig,
    answer: Seq<char>,
    latency_ms: u64,
    usage: Option<Usage>,
) -> JsonV {
    JsonV::Obj(
        seq![
            ("provider"@, JsonV::Str(cfg.provider.spec_name())),
            ("model"@, JsonV::Str(cfg.model@)),
            ("answer"@, JsonV::Str(answer)),
            ("latency_ms"@, JsonV::UInt(latency_ms)),
            ("request"@, spec_request_json(cfg)),
            (
                "usage"@,
                if usage matches Some(u) && spec_usage_present(u) {
                    spec_usage_json(usage->0)
                } else {
                    JsonV::Null
                },
            ),
        ],
    )
}

/// Builds the JSON output envelope around an answer.
pub fn json_output(cfg: &RequestConfig, answer: String, latency_ms: u64, usage: &Option<Usage>)
    -> (r: JsonValue)
    ensures
        r@ == spec_json_output(*cfg, answer@, latency_ms, *usage),
{
    let ghost answer_view = answer@;
    let mut fields: Vec<(String, JsonValue)> = Vec::new();
    fields.push(
        (String::from_str("provider"), JsonValue::Str(String::from_str(cfg.provider.as_str()))),
    );
    fields.push((String::from_str("model"), JsonValue::Str(cfg.model.clone())));
    fields.push((String::from_str("answer"), JsonValue::Str(answer)));
    fields.push((String::from_str("latency_ms"), JsonValue::UInt(latency_ms)));
    fields.push((String::from_str("request"), request_json(cfg)));
    let usage_value = match usage {
        Some(u) => match json_usage(u) {
            Some(v) => v,
            None => JsonValue::Null,
        },
        None => JsonValue::Null,
    };
    fields.push((String::from_str("usage"), usage_value));
    let r = JsonValue::Obj(fields);
    proof {
        lemma_view_fields_index(r->Obj_0@, 0);
        lemma_view_fields_index(r->Obj_0@, 1);
        lemma_view_fields_index(r->Obj_0@, 2);
        lemma_view_fields_index(r->Obj_0@, 3);
        lemma_view_fields_index(r->Obj_0@, 4);
        lemma_view_fields_index(r->Obj_0@, 5);
        assert(spec_view_fields(r->Obj_0@) =~= spec_json_output(
            *cfg,
            answer_view,
            latency_ms,
            *usage,
        )->Obj_0);
    }
    r
}

/// The failure reported when the caller requires non-empty output and the
/// answer holds nothing but whitespace.
pub fn empty_answer_failure(fail_on_empty: bool, content: &str) -> (r: Option<String>)
    ensures
        match r {
            Some(msg) => fail_on_empty && crate::text::spec_trim(content@).len() == 0 && msg@
                == "Model response is empty and --fail-on-empty is enabled."@,
            None => !(fail_on_empty && crate::text::spec_trim(content@).len() == 0),
        },
{
    if fail_on_empty && crate::text::is_blank(content) {
        Some(String::from_str("Model response is empty and --fail-on-empty is enabled."))
    } else {
        None
    }
}

/// An optional count rendered for the usage side channel: its digits, or
/// `n/a`.
pub open spec fn spec_count_chars(v: Option<u32>) -> Seq<char> {
    match v {
        Some(n) => crate::text::spec_dec_digits(n as nat),
        None => "n/a"@,
    }
}

/// Renders an optional count for the usage side channel.
fn count_chars(v: Option<u32>) -> (r: String)
    ensures
        r@ == spec_count_chars(v),
{
    match v {
        Some(n) => u64_to_string(n as u64),
        None => String::from_str("n/a"),
    }
}

/// The usage side-channel line: the reported token counts, `n/a` where a
/// count is missing, or `unavailable` when nothing was reported at all; the
/// measured latency either way.
pub open spec fn spec_usage_line(usage: Option<Usage>, latency_ms: u64) -> Seq<char> {
    if usage matches Some(u) && spec_usage_present(u) {
        "usage: prompt_tokens="@ + spec_count_chars(usage->0.prompt_tokens)
            + " completion_tokens="@ + spec_count_chars(usage->0.completion_tokens)
            + " total_tokens="@ + spec_count_chars(usage->0.total_tokens) + " latency_ms="@
            + crate::text::spec_dec_digits(latency_ms as nat)
    } else {
        "usage: unavailable latency_ms="@ + crate::text::spec_dec_digits(latency_ms as nat)
    }
}

/// Builds the usage side-channel line. The side channel is distinct from
/// the primary answer channel: the caller writes it to the error stream.
pub fn usage_line(usage: &Option<Usage>, latency_ms: u64) -> (r: String)
    ensures
        r@ == spec_usage_line(*usage, latency_ms),
{
    let latency = u64_to_string(latency_ms);
    if let Some(u) = usage {
        let present = u.prompt_tokens.is_some() || u.completion_tokens.is_some()
            || u.total_tokens.is_some();
        if present {
            let mut r = String::from_str("usage: prompt_tokens=");
            let pt = count_chars(u.prompt_tokens);
            r.append(pt.as_str());
            r.append(" completion_tokens=");
            let ct = count_chars(u.completion_tokens);
            r.append(ct.as_str());
            r.append(" total_tokens=");
            let tt = count_chars(u.total_tokens);
            r.append(tt.as_str());
            r.append(" latency_ms=");
            r.append(latency.as_str());
            proof {
                assert(r@ =~= spec_usage_line(*usage, latency_ms));
            }
            return r;
        }
    }
    let mut r = String::from_str("usage: unavailable latency_ms=");
    r.append(latency.as_str());
    proof {
        assert(r@ =~= spec_usage_line(*usage, latency_ms));
    }
    r
}

/// The usage side-channel line of a dry run: nothing was measured and
/// nothing was reported.
pub fn dry_run_usage_line() -> (r: String)
    ensures
        r@ == "usage: unavailable latency_ms=0 (dry-run)"@,
{
    String::from_str("usage: unavailable latency_ms=0 (dry-run)")
}

/// A boolean rendered as `true` or `false`.
pub open spec fn spec_bool_chars(b: bool) -> Seq<char> {
    if b {
        "true"@
    } else {
        "false"@
    }
}

/// Renders a boolean as `true` or `false`.
fn bool_chars(b: bool) -> (r: &'static str)
    ensures
        r@ == spec_bool_chars(b),
{
    if b {
        "true"
    } else {
        "false"
    }
}

/// The total character count of a conversation's contents.
pub open spec fn spec_total_chars(msgs: Seq<ChatMessage>) -> nat
    decreases msgs,
{
    if msgs.len() == 0 {
        0
    } else {
        spec_total_chars(msgs.drop_last()) + msgs.last().content@.len()
    }
}

/// The character count shown in the verbose line, saturating at the largest
/// representable count.
pub open spec fn spec_total_chars_shown(msgs: Seq<ChatMessage>) -> u64 {
    if spec_total_chars(msgs) > u64::MAX {
        u64::MAX
    } else {
        spec_total_chars(msgs) as u64
    }
}

/// Counts the characters of a conversation's contents, saturating.
#[verifier::loop_isolation(false)]
fn total_chars(messages: &Vec<ChatMessage>) -> (r: u64)
    ensures
        r == spec_total_chars_shown(messages@),
{
    let mut acc: u64 = 0;
    let mut i: usize = 0;
    while i < messages.len()
        invariant
            i <= messages@.len(),
            acc == spec_total_chars_shown(messages@.subrange(0, i as int)),
        decreases messages@.len() - i,
    {
        let n = messages[i].content.as_str().unicode_len();
        acc = match acc.checked_add(n as u64) {
            Some(v) => v,
            None => u64::MAX,
        };
        i = i + 1;
        proof {
            assert(messages@.subrange(0, i as int).drop_last() =~= messages@.subrange(
                0,
                i - 1,
            ));
            assert(messages@.subrange(0, i as int).last() == messages@[i - 1]);
        }
    }
    proof {
        assert(messages@.subrange(0, messages@.len() as int) =~= messages@);
    }
    acc
}

/// The first verbose diagnostic line: the resolved request at a glance.
/// Only the presence of the credential is reported, never its value, which
/// this crate is not handed.
pub open spec fn spec_verbose_request_line(
    cfg: RequestConfig,
    dry_run: bool,
    prompt_source: crate::resolve::PromptSource,
    msgs: Seq<ChatMessage>,
    api_key_present: bool,
) -> Seq<char> {
    "verbose: provider="@ + cfg.provider.spec_name() + " endpoint="@ + spec_endpoint(
        cfg.provider,
    ) + " model="@ + cfg.model@ + " output="@ + cfg.output.spec_str() + " dry_run="@
        + spec_bool_chars(dry_run) + " show_usage="@ + spec_bool_chars(cfg.show_usage)
        + " prompt_source="@ + prompt_source.spec_str() + " messages="@
        + crate::text::spec_dec_digits(msgs.len()) + " chars="@ + crate::text::spec_dec_digits(
        spec_total_chars_shown(msgs) as nat,
    ) + " api_key_present="@ + spec_bool_chars(api_key_present)
}

/// The second verbose diagnostic line: the resolved options.
pub open spec fn spec_verbose_options_line(cfg: RequestConfig) -> Seq<char> {
    "verbose: options temperature="@ + (match cfg.temperature {
        Some(t) => crate::temp::spec_temp_chars(t),
        None => "n/a"@,
    }) + " max_tokens="@ + spec_count_chars(cfg.max_tokens) + " timeout_secs="@ + (
    match cfg.timeout_secs {
        Some(v) => crate::text::spec_dec_digits(v as nat),
        None => "n/a"@,
    }) + " retries="@ + crate::text::spec_dec_digits(cfg.retries as nat) + " retry_delay_ms="@
        + crate::text::spec_dec_digits(cfg.retry_delay_ms as nat) + " backoff=exponential"@
}

/// Builds the two verbose diagnostic lines. They are written to the error
/// stream by the caller; the credential itself never reaches this function,
/// only whether one is present.
pub fn verbose_lines(
    cfg: &RequestConfig,
    dry_run: bool,
    prompt_source: crate::resolve::PromptSource,
    messages: &Vec<ChatMessage>,
    api_key_present: bool,
) -> (r: (String, String))
    ensures
        r.0@ == spec_verbose_request_line(
            *cfg,
            dry_run,
            prompt_source,
            messages@,
            api_key_present,
        ),
        r.1@ == spec_verbose_options_line(*cfg),
{
    let mut line1 = String::from_str("verbose: provider=");
    line1.append(cfg.provider.as_str());
    line1.append(" endpoint=");
    line1.append(crate::provider::endpoint(cfg.provider));
    line1.append(" model=");
    line1.append(cfg.model.as_str());
    line1.append(" output=");
    line1.append(cfg.output.as_str());
    line1.append(" dry_run=");
    line1.append(bool_chars(dry_run));
    line1.append(" show_usage=");
    line1.append(bool_chars(cfg.show_usage));
    line1.append(" prompt_source=");
    line1.append(prompt_source.as_str());
    line1.append(" messages=");
    let count = u64_to_string(messages.len() as u64);
    line1.append(count.as_str());
    line1.append(" chars=");
    let chars = u64_to_string(total_chars(messages));
    line1.append(chars.as_str());
    line1.append(" api_key_present=");
    line1.append(bool_chars(api_key_present));
    proof {
        assert(line1@ =~= spec_verbose_request_line(
            *cfg,
            dry_run,
            prompt_source,
            messages@,
            api_key_present,
        ));
    }
    let mut line2 = String::from_str("verbose: options temperature=");
    match &cfg.temperature {
        Some(t) => {
            let shown = crate::temp::temp_to_string(t);
            line2.append(shown.as_str());
        },
        None => {
            line2.append("n/a");
        },
    }
    line2.append(" max_tokens=");
    let mt = count_chars(cfg.max_tokens);
    line2.append(mt.as_str());
    line2.append(" timeout_secs=");
    match cfg.timeout_secs {
        Some(v) => {
            let shown = u64_to_string(v);
            line2.append(shown.as_str());
        },
        None => {
            line2.append("n/a");
        },
    }
    line2.append(" retries=");
    let retries = u64_to_string(cfg.retries as u64);
    line2.append(retries.as_str());
    line2.append(" retry_delay_ms=");
    let delay = u64_to_string(cfg.retry_delay_ms);
    line2.append(delay.as_str());
    line2.append(" backoff=exponential");
    proof {
        assert(line2@ =~= spec_verbose_options_line(*cfg));
    }
    (line1, line2)
}

/// The rendered terminal output of a dry run: the envelope's compact JSON
/// and a newline.
pub fn dry_run_rendered(cfg: &RequestConfig, messages: &Vec<ChatMessage>) -> (r: String)
    ensures
        r@ == crate::json::spec_json_chars(spec_dry_run_json(*cfg, messages@)) + seq!['\n'],
{
    let value = dry_run_output(cfg, messages);
    let mut r = crate::json::json_to_string(&value);
    crate::text::push_char(&mut r, '\n');
    r
}

/// The rendered primary output of a live request: the answer itself under
/// the text format, or the JSON output envelope and a newline.
pub fn ask_rendered(cfg: &RequestConfig, answer: String, latency_ms: u64, usage: &Option<
    Usage,
>) -> (r: String)
    ensures
        cfg.output is Text ==> r@ == answer@,
        cfg.output is Json ==> r@ == crate::json::spec_json_chars(
            spec_json_output(*cfg, answer@, latency_ms, *usage),
        ) + seq!['\n'],
{
    match cfg.output {
        crate::resolve::OutputFormat::Text => answer,
        crate::resolve::OutputFormat::Json => {
            let value = json_output(cfg, answer, latency_ms, usage);
            let mut r = crate::json::json_to_string(&value);
            crate::text::push_char(&mut r, '\n');
            r
        },
    }
}

/// Dry-run never contacts the network; its envelope renders a fixed
/// placeholder where the credential would stand, whatever the configuration
/// and messages, and is built by a function that is never handed a
/// credential.
pub proof fn lemma_dry_run_redacts_credentials(cfg: RequestConfig, msgs: Seq<ChatMessage>)
    ensures
        spec_obj_get(spec_dry_run_json(cfg, msgs), "authorization"@) == Some(
            JsonV::Str(spec_redacted_authorization()),
        ),
{
    reveal_strlit("dry_run");
    reveal_strlit("provider");
    reveal_strlit("endpoint");
    reveal_strlit("model");
    reveal_strlit("messages");
    reveal_strlit("request");
    reveal_strlit("output");
    reveal_strlit("show_usage");
    reveal_strlit("authorization");
    assert("dry_run"@.len() == 7);
    assert("provider"@.len() == 8);
    assert("endpoint"@.len() == 8);
    assert("model"@.len() == 5);
    assert("messages"@.len() == 8);
    assert("request"@.len() == 7);
    assert("output"@.len() == 6);
    assert("show_usage"@.len() == 10);
    assert("authorization"@.len() == 13);
    let fields = spec_dry_run_json(cfg, msgs)->Obj_0;
    assert(spec_lookup(fields, "authorization"@) == spec_lookup(
        fields.drop_first(),
        "authorization"@,
    ));
    assert(spec_lookup(fields.skip(1), "authorization"@) == spec_lookup(
        fields.skip(2),
        "authorization"@,
    )) by {
        assert(fields.skip(1).drop_first() =~= fields.skip(2));
    }
    assert(spec_lookup(fields.skip(2), "authorization"@) == spec_lookup(
        fields.skip(3),
        "authorization"@,
    )) by {
        assert(fields.skip(2).drop_first() =~= fields.skip(3));
    }
    assert(spec_lookup(fields.skip(3), "authorization"@) == spec_lookup(
        fields.skip(4),
        "authorization"@,
    )) by {
        assert(fields.skip(3).drop_first() =~= fields.skip(4));
    }
    assert(spec_lookup(fields.skip(4), "authorization"@) == spec_lookup(
        fields.skip(5),
        "authorization"@,
    )) by {
        assert(fields.skip(4).drop_first() =~= fields.skip(5));
    }
    assert(spec_lookup(fields.skip(5), "authorization"@) == spec_lookup(
        fields.skip(6),
        "authorization"@,
    )) by {
        assert(fields.skip(5).drop_first() =~= fields.skip(6));
    }
    assert(spec_lookup(fields.skip(6), "authorization"@) == spec_lookup(
        fields.skip(7),
        "authorization"@,
    )) by {
        assert(fields.skip(6).drop_first() =~= fields.skip(7));
    }
    assert(spec_lookup(fields.skip(7), "authorization"@) == spec_lookup(
        fields.skip(8),
        "authorization"@,
    )) by {
        assert(fields.skip(7).drop_first() =~= fields.skip(8));
    }
    assert(fields.skip(8)[0] == ("authorization"@, JsonV::Str(spec_redacted_authorization())));
    assert(fields.drop_first() =~= fields.skip(1));
}

/// The dry-run envelope and the live JSON output envelope carry one and the
/// same `request` sub-object: identical field names, shapes and values, for
/// every resolved configuration.
pub proof fn lemma_envelopes_share_request_shape(
    cfg: RequestConfig,
    msgs: Seq<ChatMessage>,
    answer: Seq<char>,
    latency_ms: u64,
    usage: Option<Usage>,
)
    ensures
        spec_obj_get(spec_dry_run_json(cfg, msgs), "request"@) == Some(spec_request_json(cfg)),
        spec_obj_get(spec_json_output(cfg, answer, latency_ms, usage), "request"@) == Some(
            spec_request_json(cfg),
        ),
{
    reveal_strlit("dry_run");
    reveal_strlit("provider");
    reveal_strlit("endpoint");
    reveal_strlit("model");
    reveal_strlit("messages");
    reveal_strlit("request");
    reveal_strlit("answer");
    reveal_strlit("latency_ms");
    reveal_strlit("usage");
    assert("dry_run"@.len() == 7);
    assert("provider"@.len() == 8);
    assert("endpoint"@.len() == 8);
    assert("model"@.len() == 5);
    assert("messages"@.len() == 8);
    assert("request"@.len() == 7);
    assert("answer"@.len() == 6);
    assert("latency_ms"@.len() == 10);
    assert("dry_run"@[0] == 'd');
    assert("request"@[0] == 'r');
    let dry = spec_dry_run_json(cfg, msgs)->Obj_0;
    assert(spec_lookup(dry, "request"@) == spec_lookup(dry.skip(1), "request"@)) by {
        assert(dry.drop_first() =~= dry.skip(1));
    }
    assert(spec_lookup(dry.skip(1), "request"@) == spec_lookup(dry.skip(2), "request"@)) by {
        assert(dry.skip(1).drop_first() =~= dry.skip(2));
    }
    assert(spec_lookup(dry.skip(2), "request"@) == spec_lookup(dry.skip(3), "request"@)) by {
        assert(dry.skip(2).drop_first() =~= dry.skip(3));
    }
    assert(spec_lookup(dry.skip(3), "request"@) == spec_lookup(dry.skip(4), "request"@)) by {
        assert(dry.skip(3).drop_first() =~= dry.skip(4));
    }
    assert(spec_lookup(dry.skip(4), "request"@) == spec_lookup(dry.skip(5), "request"@)) by {
        assert(dry.skip(4).drop_first() =~= dry.skip(5));
    }
    assert(dry.skip(5)[0] == ("request"@, spec_request_json(cfg)));
    let live = spec_json_output(cfg, answer, latency_ms, usage)->Obj_0;
    assert(spec_lookup(live, "request"@) == spec_lookup(live.skip(1), "request"@)) by {
        assert(live.drop_first() =~= live.skip(1));
    }
    assert(spec_lookup(live.skip(1), "request"@) == spec_lookup(live.skip(2), "request"@)) by {
        assert(live.skip(1).drop_first() =~= live.skip(2));
    }
    assert(spec_lookup(live.skip(2), "request"@) == spec_lookup(live.skip(3), "request"@)) by {
        assert(live.skip(2).drop_first() =~= live.skip(3));
    }
    assert(spec_lookup(live.skip(3), "request"@) == spec_lookup(live.skip(4), "request"@)) by {
        assert(live.skip(3).drop_first() =~= live.skip(4));
    }
    assert(live.skip(4)[0] == ("request"@, spec_request_json(cfg)));
}

} // verus!