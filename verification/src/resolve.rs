//! The configuration resolver: one value per field, tried through strict
//! precedence tiers.
//!
//! Each field resolves independently: explicit command input first, then the
//! field's environment variable, then the named profile's field, then the
//! defaults bundle declared for the already-resolved provider, then a
//! hardcoded default. Every resolved value is validated at once; a violation
//! fails the whole resolution with a descriptive error before anything else
//! happens.

use vstd::prelude::*;
use vstd::string::StringExecFns;
use crate::config::{
    ConfigFile, ProfileConfig, ProviderDefaultsConfig, spec_merged, spec_opt_str,
    spec_provider_defaults,
};
use crate::provider::Provider;
use crate::temp::{Temp, spec_parse_temp, spec_temp_chars, parse_temp, temp_to_string};
use crate::text::{
    spec_trim, spec_lower, spec_parse_u32, spec_parse_u64, trim_string, lower_string, str_eq,
    parse_u32, parse_u64, concat3, concat5,
};

verus! {

/// How the final answer is rendered.
#[derive(Debug, Clone, Copy, PartialEq, Eq, Structural)]
pub enum OutputFormat {
    Text,
    Json,
}

impl OutputFormat {
    /// The format's lower-case name.
    pub open spec fn spec_str(self) -> Seq<char> {
        match self {
            OutputFormat::Text => "text"@,
            OutputFormat::Json => "json"@,
        }
    }

    /// Returns the format's lower-case name.
    pub fn as_str(self) -> (r: &'static str)
        ensures
            r@ == self.spec_str(),
    {
        match self {
            OutputFormat::Text => "text",
            OutputFormat::Json => "json",
        }
    }
}

/// Where the main prompt came from.
#[derive(Debug, Clone, Copy, PartialEq, Eq, Structural)]
pub enum PromptSource {
    Argument,
    Stdin,
}

impl PromptSource {
    /// The source's lower-case name.
    pub open spec fn spec_str(self) -> Seq<char> {
        match self {
            PromptSource::Argument => "argument"@,
            PromptSource::Stdin => "stdin"@,
        }
    }

    /// Returns the source's lower-case name.
    pub fn as_str(self) -> (r: &'static str)
        ensures
            r@ == self.spec_str(),
    {
        match self {
            PromptSource::Argument => "argument",
            PromptSource::Stdin => "stdin",
        }
    }
}

/// The main prompt and where it came from.
#[derive(Debug)]
pub struct PromptInput {
    pub text: String,
    pub source: PromptSource,
}

/// The raw values of the resolution environment variables, as the process
/// environment held them; an unreadable or unset variable is `None`.
#[derive(Debug)]
pub struct EnvSettings {
    /// `MP_PROVIDER`
    pub provider: Option<String>,
    /// `MP_MODEL`
    pub model: Option<String>,
    /// `MP_TEMPERATURE`
    pub temperature: Option<String>,
    /// `MP_MAX_TOKENS`
    pub max_tokens: Option<String>,
    /// `MP_TIMEOUT`
    pub timeout: Option<String>,
    /// `MP_RETRIES`
    pub retries: Option<String>,
    /// `MP_RETRY_DELAY`
    pub retry_delay: Option<String>,
}

impl Default for EnvSettings {
    /// An environment with none of the variables set.
    fn default() -> (r: Self)
        ensures
            r.provider is None,
            r.model is None,
            r.temperature is None,
            r.max_tokens is None,
            r.timeout is None,
            r.retries is None,
            r.retry_delay is None,
    {
        EnvSettings {
            provider: None,
            model: None,
            temperature: None,
            max_tokens: None,
            timeout: None,
            retries: None,
            retry_delay: None,
        }
    }
}

/// The message for a value that no tier could accept:
/// `Invalid <what> '<value>'. <reason>`.
pub open spec fn spec_invalid_msg(what: Seq<char>, value: Seq<char>, reason: Seq<char>)
    -> Seq<char> {
    "Invalid "@ + what + " '"@ + value + "'. "@ + reason
}

/// Builds the message for a value that no tier could accept.
pub fn invalid_msg(what: &str, value: &str, reason: &str) -> (r: String)
    ensures
        r@ == spec_invalid_msg(what@, value@, reason@),
{
    let mut r = concat5("Invalid ", what, " '", value, "'. ");
    r.append(reason);
    proof {
        assert(r@ =~= spec_invalid_msg(what@, value@, reason@));
    }
    r
}

/// The provider a raw value parses to.
pub open spec fn spec_parse_provider(raw: Seq<char>) -> Option<Provider> {
    let t = spec_lower(spec_trim(raw));
    if t == "openai"@ {
        Some(Provider::Openai)
    } else if t == "fireworks"@ {
        Some(Provider::Fireworks)
    } else {
        None
    }
}

/// Parses a raw provider value, naming its source in the error.
pub fn parse_provider_value(raw: &str, source: &str) -> (r: Result<Provider, String>)
    ensures
        match r {
            Ok(p) => spec_parse_provider(raw@) == Some(p),
            Err(msg) => spec_parse_provider(raw@) is None && msg@ == spec_invalid_msg(
                source@,
                spec_lower(spec_trim(raw@)),
                "Supported values: openai, fireworks."@,
            ),
        },
{
    let trimmed = trim_string(raw);
    let t = lower_string(trimmed.as_str());
    if str_eq(t.as_str(), "openai") {
        Ok(Provider::Openai)
    } else if str_eq(t.as_str(), "fireworks") {
        Ok(Provider::Fireworks)
    } else {
        Err(invalid_msg(source, t.as_str(), "Supported values: openai, fireworks."))
    }
}

/// The provider the tiers resolve to: explicit input, then `MP_PROVIDER`,
/// then the profile's provider, then OpenAI; `None` when the consulted
/// value names no supported provider.
pub open spec fn spec_resolved_provider(
    cli: Option<Provider>,
    env: Option<Seq<char>>,
    prof: Option<Seq<char>>,
) -> Option<Provider> {
    if cli is Some {
        cli
    } else if env is Some {
        spec_parse_provider(env->0)
    } else if prof is Some {
        spec_parse_provider(prof->0)
    } else {
        Some(Provider::Openai)
    }
}

/// The message the provider tier fails with, when it does.
pub open spec fn spec_provider_error(
    cli: Option<Provider>,
    env: Option<Seq<char>>,
    prof: Option<Seq<char>>,
) -> Option<Seq<char>> {
    if cli is None && env is Some && spec_parse_provider(env->0) is None {
        Some(
            spec_invalid_msg(
                "MP_PROVIDER"@,
                spec_lower(spec_trim(env->0)),
                "Supported values: openai, fireworks."@,
            ),
        )
    } else if cli is None && env is None && prof is Some && spec_parse_provider(prof->0)
        is None {
        Some(
            spec_invalid_msg(
                "profile provider"@,
                spec_lower(spec_trim(prof->0)),
                "Supported values: openai, fireworks."@,
            ),
        )
    } else {
        None
    }
}

/// Resolves the provider: explicit input, then `MP_PROVIDER`, then the
/// profile's provider, then OpenAI.
pub fn resolve_provider(cli_provider: Option<Provider>, env: &EnvSettings, profile:
    &ProfileConfig) -> (r: Result<Provider, String>)
    ensures
        match r {
            Ok(p) => spec_resolved_provider(
                cli_provider,
                spec_opt_str(env.provider),
                spec_opt_str(profile.provider),
            ) == Some(p),
            Err(msg) => spec_provider_error(
                cli_provider,
                spec_opt_str(env.provider),
                spec_opt_str(profile.provider),
            ) == Some(msg@),
        },
{
    if let Some(provider) = cli_provider {
        return Ok(provider);
    }
    if let Some(raw) = &env.provider {
        return parse_provider_value(raw.as_str(), "MP_PROVIDER");
    }
    if let Some(raw) = &profile.provider {
        return parse_provider_value(raw.as_str(), "profile provider");
    }
    Ok(Provider::Openai)
}

/// The model the tiers resolve to: the first of explicit input, `MP_MODEL`
/// and the profile's model whose trimmed value is non-empty.
pub open spec fn spec_resolved_model(
    cli: Option<Seq<char>>,
    env: Option<Seq<char>>,
    prof: Option<Seq<char>>,
) -> Option<Seq<char>> {
    if cli matches Some(s) && spec_trim(s).len() > 0 {
        Some(spec_trim(cli->0))
    } else if env matches Some(s) && spec_trim(s).len() > 0 {
        Some(spec_trim(env->0))
    } else if prof matches Some(s) && spec_trim(s).len() > 0 {
        Some(spec_trim(prof->0))
    } else {
        None
    }
}

/// The message the model tiers fail with, when no tier yields a non-empty
/// value.
pub open spec fn spec_model_error(
    cli: Option<Seq<char>>,
    env: Option<Seq<char>>,
    prof: Option<Seq<char>>,
) -> Option<Seq<char>> {
    if spec_resolved_model(cli, env, prof) is None {
        Some("No model provided. Use --model or set MP_MODEL."@)
    } else {
        None
    }
}

/// Resolves the model name; no tier has a default, so a model must come from
/// somewhere or resolution fails.
pub fn resolve_model(cli_model: Option<String>, env: &EnvSettings, profile: &ProfileConfig)
    -> (r: Result<String, String>)
    ensures
        match r {
            Ok(m) => spec_resolved_model(
                spec_opt_str(cli_model),
                spec_opt_str(env.model),
                spec_opt_str(profile.model),
            ) == Some(m@),
            Err(msg) => spec_model_error(
                spec_opt_str(cli_model),
                spec_opt_str(env.model),
                spec_opt_str(profile.model),
            ) == Some(msg@),
        },
{
    if let Some(model) = &cli_model {
        let trimmed = trim_string(model.as_str());
        if trimmed.as_str().unicode_len() > 0 {
            return Ok(trimmed);
        }
    }
    if let Some(model) = &env.model {
        let trimmed = trim_string(model.as_str());
        if trimmed.as_str().unicode_len() > 0 {
            return Ok(trimmed);
        }
    }
    if let Some(model) = &profile.model {
        let trimmed = trim_string(model.as_str());
        if trimmed.as_str().unicode_len() > 0 {
            return Ok(trimmed);
        }
    }
    Err(String::from_str("No model provided. Use --model or set MP_MODEL."))
}

/// Parses a raw output format value: `text` or `json`, case-insensitively.
pub fn parse_output_format(raw: &str) -> (r: Result<OutputFormat, String>)
    ensures
        match r {
            Ok(f) => crate::config::spec_output_ok(raw@) && f.spec_str() == spec_lower(
                spec_trim(raw@),
            ),
            Err(msg) => !crate::config::spec_output_ok(raw@) && msg@ == spec_invalid_msg(
                "profile output"@,
                spec_lower(spec_trim(raw@)),
                "Supported values: text, json."@,
            ),
        },
{
    let trimmed = trim_string(raw);
    let t = lower_string(trimmed.as_str());
    if str_eq(t.as_str(), "text") {
        Ok(OutputFormat::Text)
    } else if str_eq(t.as_str(), "json") {
        Ok(OutputFormat::Json)
    } else {
        Err(invalid_msg("profile output", t.as_str(), "Supported values: text, json."))
    }
}

/// The message the output tiers fail with: a profile value naming no
/// supported format while nothing above it decides.
pub open spec fn spec_output_error(
    output: Option<OutputFormat>,
    json: bool,
    prof: Option<Seq<char>>,
) -> Option<Seq<char>> {
    if !json && output is None && prof is Some && !crate::config::spec_output_ok(prof->0) {
        Some(
            spec_invalid_msg(
                "profile output"@,
                spec_lower(spec_trim(prof->0)),
                "Supported values: text, json."@,
            ),
        )
    } else {
        None
    }
}

/// Resolves the output format: the `--json` switch wins, then an explicit
/// format, then the profile's, then plain text.
pub fn resolve_output_format(output: Option<OutputFormat>, json: bool, profile: &ProfileConfig)
    -> (r: Result<OutputFormat, String>)
    ensures
        match r {
            Ok(f) => {
                if json {
                    f == OutputFormat::Json
                } else if output is Some {
                    output == Some(f)
                } else if profile.output is Some {
                    crate::config::spec_output_ok(profile.output->0@) && f.spec_str()
                        == spec_lower(spec_trim(profile.output->0@))
                } else {
                    f == OutputFormat::Text
                }
            },
            Err(msg) => spec_output_error(output, json, spec_opt_str(profile.output)) == Some(
                msg@,
            ),
        },
{
    if json {
        return Ok(OutputFormat::Json);
    }
    if let Some(format) = output {
        return Ok(format);
    }
    if let Some(profile_output) = &profile.output {
        return parse_output_format(profile_output.as_str());
    }
    Ok(OutputFormat::Text)
}

/// Resolves the show-usage flag: the switch wins, else the profile's flag,
/// else off.
pub fn resolve_show_usage(cli_show_usage: bool, profile: &ProfileConfig) -> (r: bool)
    ensures
        r == (cli_show_usage || (profile.show_usage matches Some(b) && b)),
{
    if cli_show_usage {
        return true;
    }
    match profile.show_usage {
        Some(b) => b,
        None => false,
    }
}

/// Resolves the system prompt: explicit input wins, else the profile's.
pub fn resolve_system(cli_system: Option<String>, profile: &ProfileConfig) -> (r: Option<
    String,
>)
    ensures
        spec_opt_str(r) == if cli_system is Some {
            spec_opt_str(cli_system)
        } else {
            spec_opt_str(profile.system)
        },
{
    if cli_system.is_some() {
        return cli_system;
    }
    crate::config::opt_string_clone(&profile.system)
}

/// The temperature the tiers choose before validation: explicit input, then
/// `MP_TEMPERATURE` (whose parse failure is final, not a fallthrough), then
/// the profile's. `None` stands for a failed environment parse.
pub open spec fn spec_temp_tier(
    cli: Option<Temp>,
    env: Option<Seq<char>>,
    prof: Option<Temp>,
) -> Option<Option<Temp>> {
    if cli is Some {
        Some(cli)
    } else if env is Some {
        match spec_parse_temp(spec_trim(env->0)) {
            Some(t) => Some(Some(t)),
            None => None,
        }
    } else {
        Some(prof)
    }
}

/// The message for a resolved temperature outside [0.0, 2.0].
pub open spec fn spec_bad_temp_msg(t: Temp) -> Seq<char> {
    "Invalid temperature "@ + spec_temp_chars(t) + ". Must be in [0.0, 2.0]."@
}

/// The message the temperature tiers fail with: an unparseable environment
/// value, or a chosen value outside the domain.
pub open spec fn spec_temp_error(
    cli: Option<Temp>,
    env: Option<Seq<char>>,
    prof: Option<Temp>,
) -> Option<Seq<char>> {
    match spec_temp_tier(cli, env, prof) {
        None => Some(
            spec_invalid_msg("MP_TEMPERATURE"@, env->0, "Must be a float in [0.0, 2.0]."@),
        ),
        Some(c) => if c matches Some(v) && !v.spec_in_range() {
            Some(spec_bad_temp_msg(c->0))
        } else {
            None
        },
    }
}

/// Resolves the sampling temperature and validates it against [0.0, 2.0].
/// The environment value must be written in plain decimal notation
/// ([`parse_temp`]): exponent and special float forms are rejected.
pub fn resolve_temperature(cli_temperature: Option<Temp>, env: &EnvSettings, profile:
    &ProfileConfig) -> (r: Result<Option<Temp>, String>)
    ensures
        ({
            let tier = spec_temp_tier(
                cli_temperature,
                spec_opt_str(env.temperature),
                profile.temperature,
            );
            match r {
                Ok(t) => tier == Some(t) && (t matches Some(v) ==> v.spec_in_range()),
                Err(msg) => spec_temp_error(
                    cli_temperature,
                    spec_opt_str(env.temperature),
                    profile.temperature,
                ) == Some(msg@),
            }
        }),
{
    let temperature: Option<Temp> = if let Some(t) = cli_temperature {
        Some(t)
    } else if let Some(raw) = &env.temperature {
        let trimmed = trim_string(raw.as_str());
        match parse_temp(trimmed.as_str()) {
            Some(t) => Some(t),
            None => {
                return Err(
                    invalid_msg("MP_TEMPERATURE", raw.as_str(), "Must be a float in [0.0, 2.0]."),
                );
            },
        }
    } else {
        profile.temperature
    };
    if let Some(v) = &temperature {
        if !v.in_range() {
            let shown = temp_to_string(v);
            let mut msg = concat3("Invalid temperature ", shown.as_str(), ". Must be in [0.0, 2.0].");
            return Err(msg);
        }
    }
    Ok(temperature)
}

/// The max-tokens value the tiers choose before validation. `None` stands
/// for a failed environment parse.
pub open spec fn spec_max_tokens_tier(
    cli: Option<u32>,
    env: Option<Seq<char>>,
    prof: Option<u32>,
) -> Option<Option<u32>> {
    if cli is Some {
        Some(cli)
    } else if env is Some {
        match spec_parse_u32(spec_trim(env->0)) {
            Some(v) => Some(Some(v)),
            None => None,
        }
    } else {
        Some(prof)
    }
}

/// The message the max-tokens tiers fail with: an unparseable environment
/// value, or a chosen value of zero.
pub open spec fn spec_max_tokens_error(
    cli: Option<u32>,
    env: Option<Seq<char>>,
    prof: Option<u32>,
) -> Option<Seq<char>> {
    match spec_max_tokens_tier(cli, env, prof) {
        None => Some(spec_invalid_msg("MP_MAX_TOKENS"@, env->0, "Must be an integer > 0."@)),
        Some(c) => if c == Some(0u32) {
            Some("Invalid max tokens 0. Must be > 0."@)
        } else {
            None
        },
    }
}

/// Resolves the output token cap and validates that it is positive.
pub fn resolve_max_tokens(cli_max_tokens: Option<u32>, env: &EnvSettings, profile:
    &ProfileConfig) -> (r: Result<Option<u32>, String>)
    ensures
        ({
            let tier = spec_max_tokens_tier(
                cli_max_tokens,
                spec_opt_str(env.max_tokens),
                profile.max_tokens,
            );
            match r {
                Ok(t) => tier == Some(t) && (t matches Some(v) ==> v > 0),
                Err(msg) => spec_max_tokens_error(
                    cli_max_tokens,
                    spec_opt_str(env.max_tokens),
                    profile.max_tokens,
                ) == Some(msg@),
            }
        }),
{
    let max_tokens: Option<u32> = if let Some(v) = cli_max_tokens {
        Some(v)
    } else if let Some(raw) = &env.max_tokens {
        let trimmed = trim_string(raw.as_str());
        match parse_u32(trimmed.as_str()) {
            Some(v) => Some(v),
            None => {
                return Err(
                    invalid_msg("MP_MAX_TOKENS", raw.as_str(), "Must be an integer > 0."),
                );
            },
        }
    } else {
        profile.max_tokens
    };
    if let Some(v) = max_tokens {
        if v == 0 {
            return Err(String::from_str("Invalid max tokens 0. Must be > 0."));
        }
    }
    Ok(max_tokens)
}

/// The timeout the tiers choose before validation. `None` stands for a
/// failed environment parse.
pub open spec fn spec_timeout_tier(
    cli: Option<u64>,
    env: Option<Seq<char>>,
    prof: Option<u64>,
) -> Option<Option<u64>> {
    if cli is Some {
        Some(cli)
    } else if env is Some {
        match spec_parse_u64(spec_trim(env->0)) {
            Some(v) => Some(Some(v)),
            None => None,
        }
    } else {
        Some(prof)
    }
}

/// The message the timeout tiers fail with: an unparseable environment
/// value, or a chosen value of zero.
pub open spec fn spec_timeout_error(
    cli: Option<u64>,
    env: Option<Seq<char>>,
    prof: Option<u64>,
) -> Option<Seq<char>> {
    match spec_timeout_tier(cli, env, prof) {
        None => Some(spec_invalid_msg("MP_TIMEOUT"@, env->0, "Must be an integer > 0."@)),
        Some(c) => if c == Some(0u64) {
            Some("Invalid timeout 0. Must be > 0 seconds."@)
        } else {
            None
        },
    }
}

/// Resolves the per-attempt timeout in seconds and validates that it is
/// positive.
pub fn resolve_timeout(cli_timeout: Option<u64>, env: &EnvSettings, profile: &ProfileConfig)
    -> (r: Result<Option<u64>, String>)
    ensures
        ({
            let tier = spec_timeout_tier(cli_timeout, spec_opt_str(env.timeout), profile.timeout);
            match r {
                Ok(t) => tier == Some(t) && (t matches Some(v) ==> v > 0),
                Err(msg) => spec_timeout_error(
                    cli_timeout,
                    spec_opt_str(env.timeout),
                    profile.timeout,
                ) == Some(msg@),
            }
        }),
{
    let timeout: Option<u64> = if let Some(v) = cli_timeout {
        Some(v)
    } else if let Some(raw) = &env.timeout {
        let trimmed = trim_string(raw.as_str());
        match parse_u64(trimmed.as_str()) {
            Some(v) => Some(v),
            None => {
                return Err(invalid_msg("MP_TIMEOUT", raw.as_str(), "Must be an integer > 0."));
            },
        }
    } else {
        profile.timeout
    };
    if let Some(v) = timeout {
        if v == 0 {
            return Err(String::from_str("Invalid timeout 0. Must be > 0 seconds."));
        }
    }
    Ok(timeout)
}

/// The retry budget the tiers choose: explicit input, then `MP_RETRIES`,
/// then the profile's, then zero. `None` stands for a failed environment
/// parse. Zero is a valid budget: it means a single attempt.
pub open spec fn spec_retries_tier(
    cli: Option<u32>,
    env: Option<Seq<char>>,
    prof: Option<u32>,
) -> Option<u32> {
    if cli is Some {
        cli
    } else if env is Some {
        spec_parse_u32(spec_trim(env->0))
    } else if prof is Some {
        prof
    } else {
        Some(0u32)
    }
}

/// The message the retries tiers fail with: an unparseable environment
/// value.
pub open spec fn spec_retries_error(
    cli: Option<u32>,
    env: Option<Seq<char>>,
    prof: Option<u32>,
) -> Option<Seq<char>> {
    if spec_retries_tier(cli, env, prof) is None {
        Some(spec_invalid_msg("MP_RETRIES"@, env->0, "Must be an integer >= 0."@))
    } else {
        None
    }
}

/// Resolves the retry budget; it may be zero.
pub fn resolve_retries(cli_retries: Option<u32>, env: &EnvSettings, profile: &ProfileConfig)
    -> (r: Result<u32, String>)
    ensures
        ({
            let tier = spec_retries_tier(cli_retries, spec_opt_str(env.retries), profile.retries);
            match r {
                Ok(v) => tier == Some(v),
                Err(msg) => spec_retries_error(
                    cli_retries,
                    spec_opt_str(env.retries),
                    profile.retries,
                ) == Some(msg@),
            }
        }),
{
    if let Some(v) = cli_retries {
        return Ok(v);
    }
    if let Some(raw) = &env.retries {
        let trimmed = trim_string(raw.as_str());
        return match parse_u32(trimmed.as_str()) {
            Some(v) => Ok(v),
            None => Err(invalid_msg("MP_RETRIES", raw.as_str(), "Must be an integer >= 0.")),
        };
    }
    match profile.retries {
        Some(v) => Ok(v),
        None => Ok(0),
    }
}

/// The base backoff delay the tiers choose before validation: explicit
/// input, then `MP_RETRY_DELAY`, then the profile's, then 500 ms. `None`
/// stands for a failed environment parse.
pub open spec fn spec_retry_delay_tier(
    cli: Option<u64>,
    env: Option<Seq<char>>,
    prof: Option<u64>,
) -> Option<u64> {
    if cli is Some {
        cli
    } else if env is Some {
        spec_parse_u64(spec_trim(env->0))
    } else if prof is Some {
        prof
    } else {
        Some(500u64)
    }
}

/// The message the retry-delay tiers fail with: an unparseable environment
/// value, or a chosen delay of zero.
pub open spec fn spec_retry_delay_error(
    cli: Option<u64>,
    env: Option<Seq<char>>,
    prof: Option<u64>,
) -> Option<Seq<char>> {
    match spec_retry_delay_tier(cli, env, prof) {
        None => Some(spec_invalid_msg("MP_RETRY_DELAY"@, env->0, "Must be an integer > 0."@)),
        Some(v) => if v == 0 {
            Some("Invalid retry delay 0. Must be > 0 milliseconds."@)
        } else {
            None
        },
    }
}

/// Resolves the base backoff delay in milliseconds and validates that it is
/// positive.
pub fn resolve_retry_delay(cli_retry_delay: Option<u64>, env: &EnvSettings, profile:
    &ProfileConfig) -> (r: Result<u64, String>)
    ensures
        ({
            let tier = spec_retry_delay_tier(
                cli_retry_delay,
                spec_opt_str(env.retry_delay),
                profile.retry_delay,
            );
            match r {
                Ok(v) => tier == Some(v) && v > 0,
                Err(msg) => spec_retry_delay_error(
                    cli_retry_delay,
                    spec_opt_str(env.retry_delay),
                    profile.retry_delay,
                ) == Some(msg@),
            }
        }),
{
    let retry_delay: u64 = if let Some(v) = cli_retry_delay {
        v
    } else if let Some(raw) = &env.retry_delay {
        let trimmed = trim_string(raw.as_str());
        match parse_u64(trimmed.as_str()) {
            Some(v) => v,
            None => {
                return Err(
                    invalid_msg("MP_RETRY_DELAY", raw.as_str(), "Must be an integer > 0."),
                );
            },
        }
    } else {
        match profile.retry_delay {
            Some(v) => v,
            None => 500,
        }
    };
    if retry_delay == 0 {
        return Err(String::from_str("Invalid retry delay 0. Must be > 0 milliseconds."));
    }
    Ok(retry_delay)
}

/// The trimmed value of an optional string, when it is non-empty.
pub open spec fn spec_non_empty(value: Option<Seq<char>>) -> Option<Seq<char>> {
    if value matches Some(s) && spec_trim(s).len() > 0 {
        Some(spec_trim(value->0))
    } else {
        None
    }
}

/// Trims an optional string and keeps it only when something remains.
pub fn non_empty(value: Option<&str>) -> (r: Option<String>)
    ensures
        ({
            let sv = match value {
                Some(s) => Some(s@),
                None => None::<Seq<char>>,
            };
            match r {
                Some(t) => spec_non_empty(sv) == Some(t@),
                None => spec_non_empty(sv) is None,
            }
        }),
{
    match value {
        Some(text) => {
            let trimmed = trim_string(text);
            if trimmed.as_str().unicode_len() > 0 {
                Some(trimmed)
            } else {
                None
            }
        },
        None => None,
    }
}

/// The composed prompt: the pre-prompt and post-prompt are included only
/// when they hold more than whitespace, each separated from the main prompt
/// by one blank line; included segments keep their original spacing.
pub open spec fn spec_composed_prompt(
    pre: Option<Seq<char>>,
    main: Seq<char>,
    post: Option<Seq<char>>,
) -> Seq<char> {
    let head = if pre matches Some(p) && spec_trim(p).len() > 0 {
        pre->0 + seq!['\n', '\n']
    } else {
        Seq::empty()
    };
    let tail = if post matches Some(p) && spec_trim(p).len() > 0 {
        seq!['\n', '\n'] + post->0
    } else {
        Seq::empty()
    };
    head + main + tail
}

/// Joins the optional pre-prompt, the main prompt and the optional
/// post-prompt with blank lines, skipping segments that hold only
/// whitespace.
pub fn compose_prompt(preprompt: Option<&str>, main_prompt: &str, postprompt: Option<&str>)
    -> (r: String)
    ensures
        ({
            let pre = match preprompt {
                Some(s) => Some(s@),
                None => None::<Seq<char>>,
            };
            let post = match postprompt {
                Some(s) => Some(s@),
                None => None::<Seq<char>>,
            };
            r@ == spec_composed_prompt(pre, main_prompt@, post)
        }),
{
    let mut r = String::new();
    if let Some(pre) = preprompt {
        let trimmed = trim_string(pre);
        if trimmed.as_str().unicode_len() > 0 {
            r.append(pre);
            r.append("\n\n");
        }
    }
    r.append(main_prompt);
    if let Some(post) = postprompt {
        let trimmed = trim_string(post);
        if trimmed.as_str().unicode_len() > 0 {
            r.append("\n\n");
            r.append(post);
        }
    }
    proof {
        reveal_strlit("\n\n");
        let pre = match preprompt {
            Some(s) => Some(s@),
            None => None::<Seq<char>>,
        };
        let post = match postprompt {
            Some(s) => Some(s@),
            None => None::<Seq<char>>,
        };
        assert(r@ =~= spec_composed_prompt(pre, main_prompt@, post));
    }
    r
}

/// Builds the canonical conversation: the system message, when one is
/// given, followed by one user message carrying the prompt.
pub fn build_messages(system: Option<&str>, prompt: &str) -> (r: Vec<
    crate::provider::ChatMessage,
>)
    ensures
        match system {
            Some(s) => r@.len() == 2 && r@[0].role@ == "system"@ && r@[0].content@ == s@
                && r@[1].role@ == "user"@ && r@[1].content@ == prompt@,
            None => r@.len() == 1 && r@[0].role@ == "user"@ && r@[0].content@ == prompt@,
        },
{
    let mut messages: Vec<crate::provider::ChatMessage> = Vec::new();
    if let Some(system) = system {
        messages.push(crate::provider::ChatMessage::system(system));
    }
    messages.push(crate::provider::ChatMessage::user(prompt));
    messages
}

/// Chooses the main prompt: an explicit argument wins untrimmed; otherwise
/// piped input is trimmed and must hold more than whitespace; with neither,
/// there is no prompt.
pub fn select_prompt(cli_prompt: Option<String>, piped: Option<String>) -> (r: Result<
    PromptInput,
    String,
>)
    ensures
        match r {
            Ok(p) => {
                ||| (cli_prompt matches Some(text) && p.text@ == text@ && p.source
                    == PromptSource::Argument)
                ||| (cli_prompt is None && (piped matches Some(text) && p.text@ == spec_trim(
                    text@,
                ) && spec_trim(text@).len() > 0 && p.source == PromptSource::Stdin))
            },
            Err(msg) => {
                ||| (cli_prompt is None && piped is None && msg@
                    == "No prompt provided. Pass an argument or pipe stdin."@)
                ||| (cli_prompt is None && (piped matches Some(text) && spec_trim(text@).len()
                    == 0 && msg@ == "Prompt is empty."@))
            },
        },
{
    if let Some(prompt) = cli_prompt {
        return Ok(PromptInput { text: prompt, source: PromptSource::Argument });
    }
    match piped {
        None => Err(String::from_str("No prompt provided. Pass an argument or pipe stdin.")),
        Some(buffer) => {
            let text = trim_string(buffer.as_str());
            if text.as_str().unicode_len() == 0 {
                return Err(String::from_str("Prompt is empty."));
            }
            Ok(PromptInput { text, source: PromptSource::Stdin })
        },
    }
}

/// The explicit command inputs that take part in resolution.
#[derive(Debug)]
pub struct CliSettings {
    pub provider: Option<Provider>,
    pub model: Option<String>,
    pub temperature: Option<Temp>,
    pub max_tokens: Option<u32>,
    pub timeout: Option<u64>,
    pub retries: Option<u32>,
    pub retry_delay: Option<u64>,
    pub output: Option<OutputFormat>,
    pub json: bool,
    pub show_usage: bool,
    pub system: Option<String>,
}

/// One resolved, validated request configuration: what a single invocation
/// sends and how it behaves. Built once per invocation.
#[derive(Debug)]
pub struct RequestConfig {
    pub provider: Provider,
    pub model: String,
    pub temperature: Option<Temp>,
    pub max_tokens: Option<u32>,
    pub timeout_secs: Option<u64>,
    pub retries: u32,
    pub retry_delay_ms: u64,
    pub output: OutputFormat,
    pub show_usage: bool,
    pub system: Option<String>,
}

impl RequestConfig {
    /// What resolution guarantees of every configuration it returns: the
    /// model is non-empty and every numeric field lies in its domain.
    pub open spec fn spec_valid(&self) -> bool {
        &&& self.model@.len() > 0
        &&& (self.temperature matches Some(t) ==> t.spec_in_range())
        &&& (self.max_tokens matches Some(v) ==> v > 0)
        &&& (self.timeout_secs matches Some(v) ==> v > 0)
        &&& self.retry_delay_ms > 0
    }
}

/// The defaults bundle declared for a provider, when the loaded file
/// declares one.
pub open spec fn spec_defaults_for(config: ConfigFile, provider: Provider) -> Option<
    ProviderDefaultsConfig,
> {
    match config.providers {
        Some(sections) => spec_provider_defaults(sections@, provider.spec_name()),
        None => None,
    }
}

/// The profile a resolution works from: the selected profile overlaid on the
/// defaults bundle of the already-resolved provider.
pub open spec fn spec_effective_profile(
    config: ConfigFile,
    profile: ProfileConfig,
    provider: Provider,
) -> ProfileConfig {
    spec_merged(spec_defaults_for(config, provider), profile)
}

/// The message resolution fails with, if it fails: the first failing field
/// in resolution order (provider, model, temperature, max_tokens, timeout,
/// retries, retry_delay, output), each exactly as its own resolver reports
/// it. Fields below the provider read the effective profile, keyed by the
/// already-resolved provider.
pub open spec fn spec_resolution_error(
    cli: CliSettings,
    env: EnvSettings,
    profile: ProfileConfig,
    config: ConfigFile,
) -> Option<Seq<char>> {
    let provider = spec_resolved_provider(
        cli.provider,
        spec_opt_str(env.provider),
        spec_opt_str(profile.provider),
    );
    if provider is None {
        spec_provider_error(
            cli.provider,
            spec_opt_str(env.provider),
            spec_opt_str(profile.provider),
        )
    } else {
        let eff = spec_effective_profile(config, profile, provider->0);
        if spec_model_error(
            spec_opt_str(cli.model),
            spec_opt_str(env.model),
            spec_opt_str(eff.model),
        ) is Some {
            spec_model_error(
                spec_opt_str(cli.model),
                spec_opt_str(env.model),
                spec_opt_str(eff.model),
            )
        } else if spec_temp_error(
            cli.temperature,
            spec_opt_str(env.temperature),
            eff.temperature,
        ) is Some {
            spec_temp_error(cli.temperature, spec_opt_str(env.temperature), eff.temperature)
        } else if spec_max_tokens_error(
            cli.max_tokens,
            spec_opt_str(env.max_tokens),
            eff.max_tokens,
        ) is Some {
            spec_max_tokens_error(cli.max_tokens, spec_opt_str(env.max_tokens), eff.max_tokens)
        } else if spec_timeout_error(cli.timeout, spec_opt_str(env.timeout), eff.timeout)
            is Some {
            spec_timeout_error(cli.timeout, spec_opt_str(env.timeout), eff.timeout)
        } else if spec_retries_error(cli.retries, spec_opt_str(env.retries), eff.retries)
            is Some {
            spec_retries_error(cli.retries, spec_opt_str(env.retries), eff.retries)
        } else if spec_retry_delay_error(
            cli.retry_delay,
            spec_opt_str(env.retry_delay),
            eff.retry_delay,
        ) is Some {
            spec_retry_delay_error(
                cli.retry_delay,
                spec_opt_str(env.retry_delay),
                eff.retry_delay,
            )
        } else if spec_output_error(cli.output, cli.json, spec_opt_str(eff.output)) is Some {
            spec_output_error(cli.output, cli.json, spec_opt_str(eff.output))
        } else {
            None
        }
    }
}

/// Resolves every field of the request configuration through its own tiers,
/// independently: a field given explicitly never looks further, a missing
/// one falls through to its environment variable, then to the selected
/// profile's field, then to the defaults bundle declared for the
/// already-resolved provider, then to the hardcoded defaults. Resolution
/// succeeds exactly when no field fails; the first violation fails the
/// whole resolution with that field's own message.
pub fn resolve_request_config(
    cli: &CliSettings,
    env: &EnvSettings,
    profile: &ProfileConfig,
    config: &ConfigFile,
) -> (r: Result<RequestConfig, String>)
    ensures
        r is Ok <==> spec_resolution_error(*cli, *env, *profile, *config) is None,
        r matches Err(msg) ==> spec_resolution_error(*cli, *env, *profile, *config) == Some(
            msg@,
        ),
        r matches Ok(cfg) ==> {
            let eff = spec_effective_profile(*config, *profile, cfg.provider);
            &&& cfg.spec_valid()
            &&& spec_resolved_provider(
                cli.provider,
                spec_opt_str(env.provider),
                spec_opt_str(profile.provider),
            ) == Some(cfg.provider)
            &&& spec_resolved_model(
                spec_opt_str(cli.model),
                spec_opt_str(env.model),
                spec_opt_str(eff.model),
            ) == Some(cfg.model@)
            &&& spec_temp_tier(cli.temperature, spec_opt_str(env.temperature), eff.temperature)
                == Some(cfg.temperature)
            &&& spec_max_tokens_tier(
                cli.max_tokens,
                spec_opt_str(env.max_tokens),
                eff.max_tokens,
            ) == Some(cfg.max_tokens)
            &&& spec_timeout_tier(cli.timeout, spec_opt_str(env.timeout), eff.timeout) == Some(
                cfg.timeout_secs,
            )
            &&& spec_retries_tier(cli.retries, spec_opt_str(env.retries), eff.retries) == Some(
                cfg.retries,
            )
            &&& spec_retry_delay_tier(
                cli.retry_delay,
                spec_opt_str(env.retry_delay),
                eff.retry_delay,
            ) == Some(cfg.retry_delay_ms)
            &&& (if cli.json {
                cfg.output == OutputFormat::Json
            } else if cli.output is Some {
                cli.output == Some(cfg.output)
            } else if eff.output is Some {
                crate::config::spec_output_ok(eff.output->0@) && cfg.output.spec_str()
                    == spec_lower(spec_trim(eff.output->0@))
            } else {
                cfg.output == OutputFormat::Text
            })
            &&& cfg.show_usage == (cli.show_usage || (eff.show_usage matches Some(b) && b))
            &&& spec_opt_str(cfg.system) == (if cli.system is Some {
                spec_opt_str(cli.system)
            } else {
                spec_opt_str(eff.system)
            })
        },
{
    let provider = match resolve_provider(cli.provider, env, profile) {
        Ok(p) => p,
        Err(msg) => {
            return Err(msg);
        },
    };
    let defaults = crate::config::provider_defaults_for(config, provider.as_str());
    let merged = match &defaults {
        Some(d) => crate::config::merge_provider_defaults(Some(d), profile),
        None => crate::config::merge_provider_defaults(None, profile),
    };
    proof {
        assert(merged == spec_effective_profile(*config, *profile, provider));
    }
    let model = match resolve_model(crate::config::opt_string_clone(&cli.model), env, &merged) {
        Ok(m) => m,
        Err(msg) => {
            return Err(msg);
        },
    };
    let temperature = match resolve_temperature(cli.temperature, env, &merged) {
        Ok(t) => t,
        Err(msg) => {
            return Err(msg);
        },
    };
    let max_tokens = match resolve_max_tokens(cli.max_tokens, env, &merged) {
        Ok(v) => v,
        Err(msg) => {
            return Err(msg);
        },
    };
    let timeout_secs = match resolve_timeout(cli.timeout, env, &merged) {
        Ok(v) => v,
        Err(msg) => {
            return Err(msg);
        },
    };
    let retries = match resolve_retries(cli.retries, env, &merged) {
        Ok(v) => v,
        Err(msg) => {
            return Err(msg);
        },
    };
    let retry_delay_ms = match resolve_retry_delay(cli.retry_delay, env, &merged) {
        Ok(v) => v,
        Err(msg) => {
            return Err(msg);
        },
    };
    let output = match resolve_output_format(cli.output, cli.json, &merged) {
        Ok(f) => f,
        Err(msg) => {
            return Err(msg);
        },
    };
    let show_usage = resolve_show_usage(cli.show_usage, &merged);
    let system = resolve_system(crate::config::opt_string_clone(&cli.system), &merged);
    Ok(
        RequestConfig {
            provider,
            model,
            temperature,
            max_tokens,
            timeout_secs,
            retries,
            retry_delay_ms,
            output,
            show_usage,
            system,
        },
    )
}

/// A temperature outside [0.0, 2.0], at whatever tier it was chosen, never
/// resolves: no configuration satisfying the contract of
/// [`resolve_request_config`] carries it, so resolution fails before any
/// request is built or sent.
pub proof fn lemma_out_of_range_temperature_never_resolves(
    cli: Option<Temp>,
    env: Option<Seq<char>>,
    prof: Option<Temp>,
    t: Temp,
    cfg: RequestConfig,
)
    requires
        spec_temp_tier(cli, env, prof) == Some(Some(t)),
        !t.spec_in_range(),
        spec_temp_tier(cli, env, prof) == Some(cfg.temperature),
    ensures
        !cfg.spec_valid(),
{
}

} // verus!
