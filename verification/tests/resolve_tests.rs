use mpipe::config::{load_profile, ConfigFile, ProfileConfig, ProviderDefaultsConfig, ProviderSectionConfig};
use mpipe::provider::Provider;
use mpipe::resolve::{
    compose_prompt, non_empty, parse_output_format, parse_provider_value, resolve_max_tokens,
    resolve_model, resolve_output_format, resolve_provider, resolve_request_config,
    resolve_retries, resolve_retry_delay, resolve_show_usage, resolve_system, resolve_temperature,
    resolve_timeout, select_prompt, build_messages, CliSettings, EnvSettings, OutputFormat,
    PromptSource,
};
use mpipe::temp::{parse_temp, Temp};

fn profile() -> ProfileConfig {
    ProfileConfig::default()
}

fn env() -> EnvSettings {
    EnvSettings::default()
}

fn no_file() -> ConfigFile {
    ConfigFile {
        profiles: None,
        providers: None,
    }
}

fn defaults_section(provider: &str, defaults: ProviderDefaultsConfig) -> ConfigFile {
    ConfigFile {
        profiles: None,
        providers: Some(vec![(
            String::from(provider),
            ProviderSectionConfig {
                defaults: Some(defaults),
            },
        )]),
    }
}

fn cli() -> CliSettings {
    CliSettings {
        provider: None,
        model: None,
        temperature: None,
        max_tokens: None,
        timeout: None,
        retries: None,
        retry_delay: None,
        output: None,
        json: false,
        show_usage: false,
        system: None,
    }
}

#[test]
fn missing_model_returns_explicit_error() {
    let err = resolve_model(None, &env(), &profile()).unwrap_err();
    assert_eq!(err, "No model provided. Use --model or set MP_MODEL.");
}

#[test]
fn invalid_provider_from_env_returns_error() {
    let mut environment = env();
    environment.provider = Some(String::from("bad"));
    let err = resolve_provider(None, &environment, &profile()).unwrap_err();
    assert_eq!(err, "Invalid MP_PROVIDER 'bad'. Supported values: openai, fireworks.");
}

#[test]
fn provider_defaults_to_openai_when_no_tier_names_one() {
    assert_eq!(resolve_provider(None, &env(), &profile()).unwrap(), Provider::Openai);
}

#[test]
fn provider_value_parses_case_insensitively_with_whitespace() {
    assert_eq!(parse_provider_value(" FireWorks ", "MP_PROVIDER").unwrap(), Provider::Fireworks);
    assert_eq!(parse_provider_value("openai", "MP_PROVIDER").unwrap(), Provider::Openai);
    let err = parse_provider_value("Anthropic", "profile provider").unwrap_err();
    assert_eq!(err, "Invalid profile provider 'anthropic'. Supported values: openai, fireworks.");
}

#[test]
fn profile_env_and_cli_precedence_is_respected() {
    let mut prof = profile();
    prof.provider = Some(String::from("fireworks"));
    prof.model = Some(String::from("profile-model"));
    let mut environment = env();
    environment.provider = Some(String::from("openai"));
    environment.model = Some(String::from("env-model"));
    let mut inputs = cli();
    inputs.provider = Some(Provider::Fireworks);
    inputs.model = Some(String::from("cli-model"));

    let cfg = resolve_request_config(&inputs, &environment, &prof, &no_file()).unwrap();
    assert_eq!(cfg.provider, Provider::Fireworks);
    assert_eq!(cfg.model, "cli-model");
}

#[test]
fn precedence_for_temperature_timeout_and_output_is_respected() {
    // The profile sets temperature 0.1, timeout 7 and json output; the
    // environment overrides temperature and timeout; explicit inputs
    // override everything they set.
    let mut prof = profile();
    prof.provider = Some(String::from("fireworks"));
    prof.model = Some(String::from("accounts/fireworks/models/kimi-k2-instruct-0905"));
    prof.temperature = Some(parse_temp("0.1").unwrap());
    prof.timeout = Some(7);
    prof.output = Some(String::from("json"));

    let mut environment = env();
    environment.temperature = Some(String::from("0.6"));
    environment.timeout = Some(String::from("21"));

    let env_cfg = resolve_request_config(&cli(), &environment, &prof, &no_file()).unwrap();
    assert_eq!(env_cfg.temperature, Some(Temp::from_milli(600)));
    assert_eq!(env_cfg.timeout_secs, Some(21));
    assert_eq!(env_cfg.output, OutputFormat::Json);
    // Model still comes from the profile while temperature comes from the
    // environment: fields fall through independently.
    assert_eq!(env_cfg.model, "accounts/fireworks/models/kimi-k2-instruct-0905");

    let mut inputs = cli();
    inputs.temperature = Some(Temp::from_milli(1200));
    inputs.timeout = Some(33);
    inputs.output = Some(OutputFormat::Text);
    let cli_cfg = resolve_request_config(&inputs, &environment, &prof, &no_file()).unwrap();
    assert_eq!(cli_cfg.temperature, Some(Temp::from_milli(1200)));
    assert_eq!(cli_cfg.timeout_secs, Some(33));
    assert_eq!(cli_cfg.output, OutputFormat::Text);
}

#[test]
fn invalid_temperature_fails_resolution_at_every_tier() {
    // Explicit input.
    let mut inputs = cli();
    inputs.model = Some(String::from("m"));
    inputs.temperature = Some(parse_temp("2.5").unwrap());
    let err = resolve_request_config(&inputs, &env(), &profile(), &no_file()).unwrap_err();
    assert_eq!(err, "Invalid temperature 2.5. Must be in [0.0, 2.0].");

    // Environment.
    let mut environment = env();
    environment.temperature = Some(String::from("2.5"));
    let err = resolve_temperature(None, &environment, &profile()).unwrap_err();
    assert_eq!(err, "Invalid temperature 2.5. Must be in [0.0, 2.0].");

    // Profile.
    let mut prof = profile();
    prof.temperature = Some(parse_temp("2.5").unwrap());
    let err = resolve_temperature(None, &env(), &prof).unwrap_err();
    assert_eq!(err, "Invalid temperature 2.5. Must be in [0.0, 2.0].");

    // The boundary itself is allowed.
    assert_eq!(
        resolve_temperature(Some(parse_temp("2.0").unwrap()), &env(), &profile()).unwrap(),
        Some(Temp::from_milli(2000))
    );
}

#[test]
fn unparseable_environment_temperature_names_the_variable() {
    let mut environment = env();
    environment.temperature = Some(String::from("warm"));
    let err = resolve_temperature(None, &environment, &profile()).unwrap_err();
    assert_eq!(err, "Invalid MP_TEMPERATURE 'warm'. Must be a float in [0.0, 2.0].");
}

#[test]
fn zero_max_tokens_and_timeout_and_retry_delay_are_rejected() {
    let err = resolve_max_tokens(Some(0), &env(), &profile()).unwrap_err();
    assert_eq!(err, "Invalid max tokens 0. Must be > 0.");
    let err = resolve_timeout(Some(0), &env(), &profile()).unwrap_err();
    assert_eq!(err, "Invalid timeout 0. Must be > 0 seconds.");
    let err = resolve_retry_delay(Some(0), &env(), &profile()).unwrap_err();
    assert_eq!(err, "Invalid retry delay 0. Must be > 0 milliseconds.");
}

#[test]
fn environment_numbers_parse_or_name_their_variable() {
    let mut environment = env();
    environment.max_tokens = Some(String::from(" 128 "));
    assert_eq!(resolve_max_tokens(None, &environment, &profile()).unwrap(), Some(128));

    environment.max_tokens = Some(String::from("lots"));
    let err = resolve_max_tokens(None, &environment, &profile()).unwrap_err();
    assert_eq!(err, "Invalid MP_MAX_TOKENS 'lots'. Must be an integer > 0.");

    let mut environment = env();
    environment.retries = Some(String::from("3"));
    assert_eq!(resolve_retries(None, &environment, &profile()).unwrap(), 3);
    environment.retries = Some(String::from("-1"));
    let err = resolve_retries(None, &environment, &profile()).unwrap_err();
    assert_eq!(err, "Invalid MP_RETRIES '-1'. Must be an integer >= 0.");

    let mut environment = env();
    environment.timeout = Some(String::from("0"));
    let err = resolve_timeout(None, &environment, &profile()).unwrap_err();
    assert_eq!(err, "Invalid timeout 0. Must be > 0 seconds.");
}

#[test]
fn retries_and_retry_delay_have_hardcoded_defaults() {
    assert_eq!(resolve_retries(None, &env(), &profile()).unwrap(), 0);
    assert_eq!(resolve_retry_delay(None, &env(), &profile()).unwrap(), 500);
}

#[test]
fn json_flag_sets_json_output_mode() {
    let cfg = resolve_output_format(None, true, &profile()).unwrap();
    assert_eq!(cfg, OutputFormat::Json);
}

#[test]
fn output_json_sets_json_output_mode() {
    let cfg = resolve_output_format(Some(OutputFormat::Json), false, &profile()).unwrap();
    assert_eq!(cfg, OutputFormat::Json);
}

#[test]
fn json_flag_overrides_output_text() {
    let cfg = resolve_output_format(Some(OutputFormat::Text), true, &profile()).unwrap();
    assert_eq!(cfg, OutputFormat::Json);
}

#[test]
fn profile_output_parses_case_insensitively() {
    assert!(matches!(parse_output_format(" TEXT "), Ok(OutputFormat::Text)));
    assert!(matches!(parse_output_format("Json"), Ok(OutputFormat::Json)));
    let err = parse_output_format("yaml").unwrap_err();
    assert_eq!(err, "Invalid profile output 'yaml'. Supported values: text, json.");
}

#[test]
fn show_usage_and_system_fall_back_to_the_profile() {
    let mut prof = profile();
    prof.show_usage = Some(true);
    prof.system = Some(String::from("be terse"));
    assert!(resolve_show_usage(false, &prof));
    assert!(!resolve_show_usage(false, &profile()));
    assert!(resolve_show_usage(true, &profile()));
    assert_eq!(resolve_system(None, &prof), Some(String::from("be terse")));
    assert_eq!(
        resolve_system(Some(String::from("override")), &prof),
        Some(String::from("override"))
    );
}

#[test]
fn argument_prompt_has_priority_over_stdin() {
    let chosen = select_prompt(
        Some(String::from("argument prompt")),
        Some(String::from("stdin prompt")),
    )
    .unwrap();
    assert_eq!(chosen.text, "argument prompt");
    assert!(matches!(chosen.source, PromptSource::Argument));
}

#[test]
fn piped_prompt_is_trimmed_and_must_hold_something() {
    let chosen = select_prompt(None, Some(String::from("  hello there \n"))).unwrap();
    assert_eq!(chosen.text, "hello there");
    assert!(matches!(chosen.source, PromptSource::Stdin));

    let err = select_prompt(None, Some(String::from("   \n"))).unwrap_err();
    assert_eq!(err, "Prompt is empty.");
    let err = select_prompt(None, None).unwrap_err();
    assert_eq!(err, "No prompt provided. Pass an argument or pipe stdin.");
}

#[test]
fn compose_prompt_joins_segments_with_blank_lines() {
    assert_eq!(compose_prompt(Some("pre"), "main", Some("post")), "pre\n\nmain\n\npost");
    assert_eq!(compose_prompt(Some("  "), "main", None), "main");
    assert_eq!(compose_prompt(None, "main", Some("\t")), "main");
    assert_eq!(compose_prompt(None, "main", None), "main");
}

#[test]
fn build_messages_puts_the_system_message_first() {
    let messages = build_messages(Some("be helpful"), "what is 2+2?");
    assert_eq!(messages.len(), 2);
    assert_eq!(messages[0].role, "system");
    assert_eq!(messages[0].content, "be helpful");
    assert_eq!(messages[1].role, "user");
    assert_eq!(messages[1].content, "what is 2+2?");

    let bare = build_messages(None, "hi");
    assert_eq!(bare.len(), 1);
    assert_eq!(bare[0].role, "user");
}

#[test]
fn profile_loads_provider_and_model_for_dry_run() {
    let mut prof = profile();
    prof.provider = Some(String::from("fireworks"));
    prof.model = Some(String::from("accounts/fireworks/models/kimi-k2-instruct-0905"));
    let cfg = resolve_request_config(&cli(), &env(), &prof, &no_file()).unwrap();
    assert_eq!(cfg.provider, Provider::Fireworks);
    assert_eq!(cfg.model, "accounts/fireworks/models/kimi-k2-instruct-0905");
}

#[test]
fn profile_is_not_implicit_when_not_passed() {
    // Without a selected profile, resolution works from the all-default
    // bundle: no model can be found.
    let err = resolve_request_config(&cli(), &env(), &ProfileConfig::default(), &no_file()).unwrap_err();
    assert_eq!(err, "No model provided. Use --model or set MP_MODEL.");
}

#[test]
fn provider_defaults_follow_the_resolved_provider() {
    // The profile names openai, but the explicit input resolves the
    // provider to fireworks: the fireworks defaults bundle applies.
    let mut fireworks_defaults = ProviderDefaultsConfig::default();
    fireworks_defaults.retries = Some(2);
    fireworks_defaults.timeout = Some(15);
    let config = defaults_section("fireworks", fireworks_defaults);
    let mut prof = profile();
    prof.provider = Some(String::from("openai"));
    prof.model = Some(String::from("m"));
    prof.timeout = Some(7);
    let mut inputs = cli();
    inputs.provider = Some(Provider::Fireworks);

    let cfg = resolve_request_config(&inputs, &env(), &prof, &config).unwrap();
    assert_eq!(cfg.provider, Provider::Fireworks);
    assert_eq!(cfg.retries, 2);
    // The profile's own field still wins over the bundle.
    assert_eq!(cfg.timeout_secs, Some(7));

    // Without the explicit input the provider resolves to openai, for
    // which this file declares no bundle.
    let cfg = resolve_request_config(&cli(), &env(), &prof, &config).unwrap();
    assert_eq!(cfg.provider, Provider::Openai);
    assert_eq!(cfg.retries, 0);
}

#[test]
fn openai_defaults_apply_when_no_tier_names_a_provider() {
    let mut openai_defaults = ProviderDefaultsConfig::default();
    openai_defaults.max_tokens = Some(64);
    let config = defaults_section("openai", openai_defaults);
    let mut prof = profile();
    prof.model = Some(String::from("m"));

    let cfg = resolve_request_config(&cli(), &env(), &prof, &config).unwrap();
    assert_eq!(cfg.provider, Provider::Openai);
    assert_eq!(cfg.max_tokens, Some(64));
}

#[test]
fn load_profile_keys_defaults_by_the_resolved_provider() {
    // A profile that names no provider resolves to openai, so loading it
    // alone merges the openai bundle.
    let mut openai_defaults = ProviderDefaultsConfig::default();
    openai_defaults.timeout = Some(30);
    let mut config = defaults_section("openai", openai_defaults);
    let mut unnamed = profile();
    unnamed.model = Some(String::from("m"));
    config.profiles = Some(vec![(String::from("plain"), unnamed)]);

    let merged = load_profile(&config, "/tmp/config.toml", "plain").expect("profile loads");
    assert_eq!(merged.timeout, Some(30));
}

#[test]
fn non_empty_drops_blank_values_and_trims_the_rest() {
    assert_eq!(non_empty(Some(" kept ")), Some(String::from("kept")));
    assert_eq!(non_empty(Some("   ")), None);
    assert_eq!(non_empty(None), None);
}
