use mpipe::config::{
    config_path, load_profile, normalized_provider_value, validate_config, validate_config_file,
    ConfigFile, ProfileConfig, ProviderDefaultsConfig, ProviderSectionConfig,
};
use mpipe::temp::Temp;

fn empty_profile() -> ProfileConfig {
    ProfileConfig::default()
}

fn empty_defaults() -> ProviderDefaultsConfig {
    ProviderDefaultsConfig::default()
}

const PATH: &str = "/tmp/config.toml";

#[test]
fn load_profile_merges_provider_defaults() {
    let mut defaults = empty_defaults();
    defaults.output = Some(String::from("json"));
    defaults.timeout = Some(15);
    defaults.retries = Some(2);
    let mut fast = empty_profile();
    fast.provider = Some(String::from("fireworks"));
    fast.model = Some(String::from("profile-model"));
    fast.timeout = Some(7);
    let config = ConfigFile {
        profiles: Some(vec![(String::from("fast"), fast)]),
        providers: Some(vec![(
            String::from("fireworks"),
            ProviderSectionConfig {
                defaults: Some(defaults),
            },
        )]),
    };

    let profile = load_profile(&config, PATH, "fast").expect("profile should load");

    assert_eq!(profile.provider.as_deref(), Some("fireworks"));
    assert_eq!(profile.model.as_deref(), Some("profile-model"));
    assert_eq!(profile.output.as_deref(), Some("json"));
    assert_eq!(profile.retries, Some(2));
    assert_eq!(profile.timeout, Some(7));
}

#[test]
fn load_profile_rejects_invalid_provider_defaults_section() {
    let mut defaults = empty_defaults();
    defaults.timeout = Some(10);
    let mut fast = empty_profile();
    fast.provider = Some(String::from("openai"));
    fast.model = Some(String::from("gpt-4o-mini"));
    let config = ConfigFile {
        profiles: Some(vec![(String::from("fast"), fast)]),
        providers: Some(vec![(
            String::from("unknown"),
            ProviderSectionConfig {
                defaults: Some(defaults),
            },
        )]),
    };

    let err = load_profile(&config, PATH, "fast").expect_err("should fail validation");
    assert!(err.contains("Invalid provider section 'providers.unknown'"));
}

#[test]
fn load_profile_rejects_invalid_profile_temperature() {
    let mut bad = empty_profile();
    bad.provider = Some(String::from("openai"));
    bad.model = Some(String::from("gpt-4o-mini"));
    bad.temperature = Some(Temp::from_milli(3100));
    let config = ConfigFile {
        profiles: Some(vec![(String::from("bad"), bad)]),
        providers: None,
    };

    let err = load_profile(&config, PATH, "bad").expect_err("should fail validation");
    assert!(err.contains("profiles.bad.temperature"));
    assert!(err.contains("must be in [0.0, 2.0]"));
}

#[test]
fn load_profile_rejects_invalid_provider_defaults_output() {
    let mut defaults = empty_defaults();
    defaults.output = Some(String::from("yaml"));
    let mut good = empty_profile();
    good.provider = Some(String::from("openai"));
    good.model = Some(String::from("gpt-4o-mini"));
    let config = ConfigFile {
        profiles: Some(vec![(String::from("good"), good)]),
        providers: Some(vec![(
            String::from("openai"),
            ProviderSectionConfig {
                defaults: Some(defaults),
            },
        )]),
    };

    let err = load_profile(&config, PATH, "good").expect_err("should fail validation");
    assert!(err.contains("providers.openai.defaults.output"));
    assert!(err.contains("supported values: text, json"));
}

#[test]
fn validate_config_accepts_valid_file_without_profiles() {
    let mut defaults = empty_defaults();
    defaults.timeout = Some(30);
    defaults.output = Some(String::from("text"));
    let config = ConfigFile {
        profiles: None,
        providers: Some(vec![(
            String::from("openai"),
            ProviderSectionConfig {
                defaults: Some(defaults),
            },
        )]),
    };

    validate_config(&config, PATH, None).expect("config should validate");
}

#[test]
fn validate_config_with_profile_checks_profile_presence() {
    let mut default_profile = empty_profile();
    default_profile.provider = Some(String::from("openai"));
    default_profile.model = Some(String::from("gpt-4o-mini"));
    let config = ConfigFile {
        profiles: Some(vec![(String::from("default"), default_profile)]),
        providers: None,
    };

    let err = validate_config(&config, PATH, Some("missing")).expect_err(
        "missing profile should fail",
    );
    assert!(err.contains("Profile 'missing' not found"));
}

#[test]
fn profile_not_found_returns_error() {
    let mut fw = empty_profile();
    fw.provider = Some(String::from("fireworks"));
    let config = ConfigFile {
        profiles: Some(vec![(String::from("fw"), fw)]),
        providers: None,
    };
    let err = load_profile(&config, PATH, "missing").expect_err("should fail");
    assert!(err.contains("Profile 'missing' not found"));
}

#[test]
fn invalid_profile_provider_returns_error() {
    let mut bad = empty_profile();
    bad.provider = Some(String::from("unknown"));
    bad.model = Some(String::from("m"));
    let config = ConfigFile {
        profiles: Some(vec![(String::from("bad"), bad)]),
        providers: None,
    };
    let err = load_profile(&config, PATH, "bad").expect_err("should fail");
    assert!(err.contains("Invalid profile provider 'unknown'"));
}

#[test]
fn invalid_profile_output_returns_error() {
    let mut bad = empty_profile();
    bad.provider = Some(String::from("openai"));
    bad.model = Some(String::from("m"));
    bad.output = Some(String::from("yaml"));
    let config = ConfigFile {
        profiles: Some(vec![(String::from("bad"), bad)]),
        providers: None,
    };
    let err = load_profile(&config, PATH, "bad").expect_err("should fail");
    assert!(err.contains("Invalid profile output 'yaml'"));
}

#[test]
fn missing_profiles_section_is_reported() {
    let config = ConfigFile {
        profiles: None,
        providers: None,
    };
    let err = load_profile(&config, PATH, "any").expect_err("should fail");
    assert_eq!(
        err,
        "Config file '/tmp/config.toml' does not contain a [profiles] section."
    );
}

#[test]
fn provider_sections_match_case_insensitively() {
    let mut defaults = empty_defaults();
    defaults.retries = Some(4);
    let mut fast = empty_profile();
    fast.provider = Some(String::from("FIREWORKS"));
    fast.model = Some(String::from("m"));
    let config = ConfigFile {
        profiles: Some(vec![(String::from("fast"), fast)]),
        providers: Some(vec![(
            String::from(" Fireworks "),
            ProviderSectionConfig {
                defaults: Some(defaults),
            },
        )]),
    };
    let profile = load_profile(&config, PATH, "fast").expect("profile should load");
    assert_eq!(profile.retries, Some(4));
}

#[test]
fn normalized_provider_value_trims_and_lowercases() {
    assert_eq!(normalized_provider_value("  OpenAI "), Some("openai"));
    assert_eq!(normalized_provider_value("fireworks"), Some("fireworks"));
    assert_eq!(normalized_provider_value("other"), None);
}

#[test]
fn eager_validation_blocks_unselected_sections() {
    // The selected profile is fine, but an unrelated profile is malformed:
    // loading must still fail.
    let mut good = empty_profile();
    good.provider = Some(String::from("openai"));
    good.model = Some(String::from("m"));
    let mut unrelated = empty_profile();
    unrelated.retry_delay = Some(0);
    let config = ConfigFile {
        profiles: Some(vec![
            (String::from("good"), good),
            (String::from("unrelated"), unrelated),
        ]),
        providers: None,
    };
    let err = load_profile(&config, PATH, "good").expect_err("should fail");
    assert!(err.contains("profiles.unrelated.retry_delay"));
}

#[test]
fn config_path_prefers_explicit_override() {
    assert_eq!(
        config_path(Some(" /tmp/override.toml "), Some("/xdg"), Some("/home/u")).unwrap(),
        "/tmp/override.toml"
    );
    assert_eq!(
        config_path(None, Some("/xdg"), Some("/home/u")).unwrap(),
        "/xdg/mpipe/config.toml"
    );
    assert_eq!(
        config_path(None, Some("  "), Some("/home/u")).unwrap(),
        "/home/u/.config/mpipe/config.toml"
    );
    let err = config_path(None, None, None).unwrap_err();
    assert_eq!(err, "Cannot resolve config path: set MP_CONFIG or HOME/XDG_CONFIG_HOME.");
}
