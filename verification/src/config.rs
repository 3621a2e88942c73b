//! The persisted configuration file: named profiles and per-provider
//! default bundles, with eager validation.
//!
//! The file itself is read and decoded outside the crate; what arrives here
//! is the already-parsed structure. Every declared profile and provider
//! section is validated whether or not it is selected, so a malformed
//! unrelated section still blocks execution.

use vstd::prelude::*;
use vstd::string::StringExecFns;
use crate::temp::Temp;
use crate::text::{
    spec_trim, spec_lower, trim_string, lower_string, str_eq, concat2, concat3, concat5,
};

verus! {

/// One named bundle of default request settings.
#[derive(Debug)]
pub struct ProfileConfig {
    pub provider: Option<String>,
    pub model: Option<String>,
    pub system: Option<String>,
    pub temperature: Option<Temp>,
    pub max_tokens: Option<u32>,
    pub timeout: Option<u64>,
    pub retries: Option<u32>,
    pub retry_delay: Option<u64>,
    pub output: Option<String>,
    pub show_usage: Option<bool>,
}

impl Default for ProfileConfig {
    /// The all-absent bundle: every field falls through to later tiers.
    fn default() -> (r: Self)
        ensures
            r.provider is None,
            r.model is None,
            r.system is None,
            r.temperature is None,
            r.max_tokens is None,
            r.timeout is None,
            r.retries is None,
            r.retry_delay is None,
            r.output is None,
            r.show_usage is None,
    {
        ProfileConfig {
            provider: None,
            model: None,
            system: None,
            temperature: None,
            max_tokens: None,
            timeout: None,
            retries: None,
            retry_delay: None,
            output: None,
            show_usage: None,
        }
    }
}

/// Clones an optional string, preserving its value exactly.
pub fn opt_string_clone(o: &Option<String>) -> (r: Option<String>)
    ensures
        r == *o,
{
    match o {
        Some(s) => Some(s.clone()),
        None => None,
    }
}

impl Clone for ProfileConfig {
    fn clone(&self) -> (r: Self)
        ensures
            r == *self,
    {
        ProfileConfig {
            provider: opt_string_clone(&self.provider),
            model: opt_string_clone(&self.model),
            system: opt_string_clone(&self.system),
            temperature: self.temperature,
            max_tokens: self.max_tokens,
            timeout: self.timeout,
            retries: self.retries,
            retry_delay: self.retry_delay,
            output: opt_string_clone(&self.output),
            show_usage: self.show_usage,
        }
    }
}

/// The default bundle a provider section declares for its requests.
#[derive(Debug)]
pub struct ProviderDefaultsConfig {
    pub model: Option<String>,
    pub system: Option<String>,
    pub temperature: Option<Temp>,
    pub max_tokens: Option<u32>,
    pub timeout: Option<u64>,
    pub retries: Option<u32>,
    pub retry_delay: Option<u64>,
    pub output: Option<String>,
    pub show_usage: Option<bool>,
}

impl Default for ProviderDefaultsConfig {
    /// The all-absent bundle.
    fn default() -> (r: Self)
        ensures
            r.model is None,
            r.system is None,
            r.temperature is None,
            r.max_tokens is None,
            r.timeout is None,
            r.retries is None,
            r.retry_delay is None,
            r.output is None,
            r.show_usage is None,
    {
        ProviderDefaultsConfig {
            model: None,
            system: None,
            temperature: None,
            max_tokens: None,
            timeout: None,
            retries: None,
            retry_delay: None,
            output: None,
            show_usage: None,
        }
    }
}

impl Clone for ProviderDefaultsConfig {
    fn clone(&self) -> (r: Self)
        ensures
            r == *self,
    {
        ProviderDefaultsConfig {
            model: opt_string_clone(&self.model),
            system: opt_string_clone(&self.system),
            temperature: self.temperature,
            max_tokens: self.max_tokens,
            timeout: self.timeout,
            retries: self.retries,
            retry_delay: self.retry_delay,
            output: opt_string_clone(&self.output),
            show_usage: self.show_usage,
        }
    }
}

/// One provider section of the file: its optional defaults bundle.
#[derive(Debug)]
pub struct ProviderSectionConfig {
    pub defaults: Option<ProviderDefaultsConfig>,
}

/// The whole configuration file: profiles by name and provider sections by
/// provider name, both in file order.
#[derive(Debug)]
pub struct ConfigFile {
    pub profiles: Option<Vec<(String, ProfileConfig)>>,
    pub providers: Option<Vec<(String, ProviderSectionConfig)>>,
}

/// The canonical provider name a raw value stands for: trimmed and
/// lower-cased it must read `openai` or `fireworks`.
pub open spec fn spec_normalized_provider(raw: Seq<char>) -> Option<Seq<char>> {
    let t = spec_lower(spec_trim(raw));
    if t == "openai"@ {
        Some("openai"@)
    } else if t == "fireworks"@ {
        Some("fireworks"@)
    } else {
        None
    }
}

/// Normalizes a raw provider value to its canonical name, or `None` when it
/// names no supported provider.
pub fn normalized_provider_value(raw: &str) -> (r: Option<&'static str>)
    ensures
        match r {
            Some(s) => spec_normalized_provider(raw@) == Some(s@),
            None => spec_normalized_provider(raw@) is None,
        },
{
    let trimmed = trim_string(raw);
    let t = lower_string(trimmed.as_str());
    if str_eq(t.as_str(), "openai") {
        Some("openai")
    } else if str_eq(t.as_str(), "fireworks") {
        Some("fireworks")
    } else {
        None
    }
}

/// The view of an optional string.
pub open spec fn spec_opt_str(o: Option<String>) -> Option<Seq<char>> {
    match o {
        Some(s) => Some(s@),
        None => None,
    }
}

/// Whether a raw output value names a supported format, case-insensitively:
/// `text` or `json`.
pub open spec fn spec_output_ok(raw: Seq<char>) -> bool {
    let t = spec_lower(spec_trim(raw));
    t == "text"@ || t == "json"@
}

/// Whether a bundle's fields all lie in their domains: temperature in
/// [0.0, 2.0], max_tokens, timeout and retry_delay positive, output one of
/// the supported formats.
pub open spec fn spec_fields_valid(
    temperature: Option<Temp>,
    max_tokens: Option<u32>,
    timeout: Option<u64>,
    retry_delay: Option<u64>,
    output: Option<Seq<char>>,
) -> bool {
    &&& (temperature matches Some(t) ==> t.spec_in_range())
    &&& (max_tokens matches Some(v) ==> v > 0)
    &&& (timeout matches Some(v) ==> v > 0)
    &&& (retry_delay matches Some(v) ==> v > 0)
    &&& (output matches Some(o) ==> spec_output_ok(o))
}

/// The message for a field value outside its domain.
pub open spec fn spec_value_msg(
    section: Seq<char>,
    field: Seq<char>,
    path: Seq<char>,
    shown: Seq<char>,
    reason: Seq<char>,
) -> Seq<char> {
    "Invalid value at '"@ + section + "."@ + field + "' in config file '"@ + path + "': "@
        + shown + " ("@ + reason + ")."@
}

/// Builds the message for a field value outside its domain.
pub fn value_msg(section: &str, field: &str, path: &str, shown: &str, reason: &str) -> (r:
    String)
    ensures
        r@ == spec_value_msg(section@, field@, path@, shown@, reason@),
{
    let mut r = concat5("Invalid value at '", section, ".", field, "' in config file '");
    r.append(path);
    r.append("': ");
    r.append(shown);
    r.append(" (");
    r.append(reason);
    r.append(").");
    proof {
        assert(r@ =~= spec_value_msg(section@, field@, path@, shown@, reason@));
    }
    r
}

/// The message for a bad profile field with the supported values spelled
/// out.
pub open spec fn spec_profile_msg(
    what: Seq<char>,
    value: Seq<char>,
    allowed: Seq<char>,
    name: Seq<char>,
    field: Seq<char>,
    path: Seq<char>,
) -> Seq<char> {
    "Invalid profile "@ + what + " '"@ + value + "'. Supported values: "@ + allowed
        + ". (at 'profiles."@ + name + "."@ + field + "' in '"@ + path + "')"@
}

/// Builds the message for a bad profile field.
pub fn profile_msg(what: &str, value: &str, allowed: &str, name: &str, field: &str, path: &str)
    -> (r: String)
    ensures
        r@ == spec_profile_msg(what@, value@, allowed@, name@, field@, path@),
{
    let mut r = concat5("Invalid profile ", what, " '", value, "'. Supported values: ");
    r.append(allowed);
    r.append(". (at 'profiles.");
    r.append(name);
    r.append(".");
    r.append(field);
    r.append("' in '");
    r.append(path);
    r.append("')");
    proof {
        assert(r@ =~= spec_profile_msg(what@, value@, allowed@, name@, field@, path@));
    }
    r
}

/// The message reported for the first field of a bundle outside its domain,
/// in the order the fields are checked: temperature, max_tokens, timeout,
/// retry_delay, output. Meaningful only when some field is invalid.
pub open spec fn spec_first_field_error(
    section: Seq<char>,
    profile_name: Option<Seq<char>>,
    path: Seq<char>,
    temperature: Option<Temp>,
    max_tokens: Option<u32>,
    timeout: Option<u64>,
    retry_delay: Option<u64>,
    output: Option<Seq<char>>,
) -> Seq<char> {
    if temperature matches Some(t) && !t.spec_in_range() {
        spec_value_msg(
            section,
            "temperature"@,
            path,
            crate::temp::spec_temp_chars(temperature->0),
            "must be in [0.0, 2.0]"@,
        )
    } else if max_tokens matches Some(v) && v == 0 {
        spec_value_msg(section, "max_tokens"@, path, "0"@, "must be > 0"@)
    } else if timeout matches Some(v) && v == 0 {
        spec_value_msg(section, "timeout"@, path, "0"@, "must be > 0"@)
    } else if retry_delay matches Some(v) && v == 0 {
        spec_value_msg(section, "retry_delay"@, path, "0"@, "must be > 0"@)
    } else if output matches Some(o) && !spec_output_ok(o) {
        let low = spec_lower(spec_trim(output->0));
        if profile_name matches Some(name) {
            spec_profile_msg("output"@, low, "text, json"@, profile_name->0, "output"@, path)
        } else {
            spec_value_msg(
                section,
                "output"@,
                path,
                seq!['\''] + low + seq!['\''],
                "supported values: text, json"@,
            )
        }
    } else {
        Seq::empty()
    }
}

/// The view of an optional profile name argument.
pub open spec fn spec_opt_name(o: Option<&str>) -> Option<Seq<char>> {
    match o {
        Some(s) => Some(s@),
        None => None,
    }
}

/// Validates one bundle of fields against their domains. `section_path`
/// names the bundle in messages; `profile_name` is given for a profile
/// bundle, whose output error reads differently.
pub fn validate_profile_fields(
    path: &str,
    section_path: &str,
    profile_name: Option<&str>,
    temperature: &Option<Temp>,
    max_tokens: &Option<u32>,
    timeout: &Option<u64>,
    retry_delay: &Option<u64>,
    output: &Option<String>,
) -> (r: Result<(), String>)
    ensures
        r is Ok <==> spec_fields_valid(
            *temperature,
            *max_tokens,
            *timeout,
            *retry_delay,
            spec_opt_str(*output),
        ),
        r matches Err(msg) ==> msg@ == spec_first_field_error(
            section_path@,
            spec_opt_name(profile_name),
            path@,
            *temperature,
            *max_tokens,
            *timeout,
            *retry_delay,
            spec_opt_str(*output),
        ),
{
    if let Some(t) = temperature {
        if !t.in_range() {
            let shown = crate::temp::temp_to_string(t);
            return Err(
                value_msg(
                    section_path,
                    "temperature",
                    path,
                    shown.as_str(),
                    "must be in [0.0, 2.0]",
                ),
            );
        }
    }
    if let Some(v) = max_tokens {
        if *v == 0 {
            return Err(value_msg(section_path, "max_tokens", path, "0", "must be > 0"));
        }
    }
    if let Some(v) = timeout {
        if *v == 0 {
            return Err(value_msg(section_path, "timeout", path, "0", "must be > 0"));
        }
    }
    if let Some(v) = retry_delay {
        if *v == 0 {
            return Err(value_msg(section_path, "retry_delay", path, "0", "must be > 0"));
        }
    }
    if let Some(raw) = output {
        let trimmed = trim_string(raw.as_str());
        let low = lower_string(trimmed.as_str());
        if !(str_eq(low.as_str(), "text") || str_eq(low.as_str(), "json")) {
            match profile_name {
                Some(name) => {
                    return Err(
                        profile_msg(
                            "output",
                            low.as_str(),
                            "text, json",
                            name,
                            "output",
                            path,
                        ),
                    );
                },
                None => {
                    let mut shown = concat2("'", low.as_str());
                    shown.append("'");
                    proof {
                        reveal_strlit("'");
                        assert(shown@ =~= seq!['\''] + spec_lower(spec_trim(raw@))
                            + seq!['\'']);
                    }
                    return Err(
                        value_msg(
                            section_path,
                            "output",
                            path,
                            shown.as_str(),
                            "supported values: text, json",
                        ),
                    );
                },
            }
        }
    }
    Ok(())
}

impl ProfileConfig {
    /// Whether the bundle's fields all lie in their domains.
    pub open spec fn spec_fields_ok(&self) -> bool {
        spec_fields_valid(
            self.temperature,
            self.max_tokens,
            self.timeout,
            self.retry_delay,
            spec_opt_str(self.output),
        )
    }

    /// Whether the whole profile is acceptable: fields in their domains and
    /// the provider, if named, supported.
    pub open spec fn spec_ok(&self) -> bool {
        &&& self.spec_fields_ok()
        &&& (self.provider matches Some(p) ==> spec_normalized_provider(p@) is Some)
    }
}

impl ProviderDefaultsConfig {
    /// Whether the bundle's fields all lie in their domains.
    pub open spec fn spec_fields_ok(&self) -> bool {
        spec_fields_valid(
            self.temperature,
            self.max_tokens,
            self.timeout,
            self.retry_delay,
            spec_opt_str(self.output),
        )
    }
}

/// Validates one named profile: its provider, if named, must be supported,
/// and its fields must lie in their domains.
pub fn validate_profile(path: &str, name: &str, profile: &ProfileConfig) -> (r: Result<
    (),
    String,
>)
    ensures
        r is Ok <==> profile.spec_ok(),
        r matches Err(msg) ==> msg@ == (if profile.provider matches Some(raw)
            && spec_normalized_provider(raw@) is None {
            spec_profile_msg(
                "provider"@,
                spec_lower(spec_trim(profile.provider->0@)),
                "openai, fireworks"@,
                name@,
                "provider"@,
                path@,
            )
        } else {
            spec_first_field_error(
                "profiles."@ + name@,
                Some(name@),
                path@,
                profile.temperature,
                profile.max_tokens,
                profile.timeout,
                profile.retry_delay,
                spec_opt_str(profile.output),
            )
        }),
{
    if let Some(provider_raw) = &profile.provider {
        let trimmed = trim_string(provider_raw.as_str());
        let provider = lower_string(trimmed.as_str());
        if normalized_provider_value(provider_raw.as_str()).is_none() {
            return Err(
                profile_msg(
                    "provider",
                    provider.as_str(),
                    "openai, fireworks",
                    name,
                    "provider",
                    path,
                ),
            );
        }
    }
    let section = concat2("profiles.", name);
    validate_profile_fields(
        path,
        section.as_str(),
        Some(name),
        &profile.temperature,
        &profile.max_tokens,
        &profile.timeout,
        &profile.retry_delay,
        &profile.output,
    )
}

/// Whether one provider section is acceptable: the section name must name a
/// supported provider and its defaults bundle, if any, must be valid.
pub open spec fn spec_section_ok(name: Seq<char>, section: ProviderSectionConfig) -> bool {
    &&& spec_normalized_provider(name) is Some
    &&& (section.defaults matches Some(d) ==> d.spec_fields_ok())
}

/// The message one provider section fails validation with, when it does.
pub open spec fn spec_section_error(
    name: Seq<char>,
    section: ProviderSectionConfig,
    path: Seq<char>,
) -> Option<Seq<char>> {
    if spec_normalized_provider(name) is None {
        Some(
            "Invalid provider section 'providers."@ + name + "' in config file '"@ + path
                + "'. Supported values: openai, fireworks."@,
        )
    } else if section.defaults matches Some(d) && !d.spec_fields_ok() {
        Some(
            spec_first_field_error(
                "providers."@ + spec_normalized_provider(name)->0 + ".defaults"@,
                None,
                path,
                section.defaults->0.temperature,
                section.defaults->0.max_tokens,
                section.defaults->0.timeout,
                section.defaults->0.retry_delay,
                spec_opt_str(section.defaults->0.output),
            ),
        )
    } else {
        None
    }
}

/// The message one profile fails validation with, when it does.
pub open spec fn spec_profile_error(
    name: Seq<char>,
    profile: ProfileConfig,
    path: Seq<char>,
) -> Option<Seq<char>> {
    if profile.provider matches Some(raw) && spec_normalized_provider(raw@) is None {
        Some(
            spec_profile_msg(
                "provider"@,
                spec_lower(spec_trim(profile.provider->0@)),
                "openai, fireworks"@,
                name,
                "provider"@,
                path,
            ),
        )
    } else if !profile.spec_fields_ok() {
        Some(
            spec_first_field_error(
                "profiles."@ + name,
                Some(name),
                path,
                profile.temperature,
                profile.max_tokens,
                profile.timeout,
                profile.retry_delay,
                spec_opt_str(profile.output),
            ),
        )
    } else {
        None
    }
}

/// The first provider section's failure message, in file order.
pub open spec fn spec_sections_first_error(
    sections: Seq<(String, ProviderSectionConfig)>,
    path: Seq<char>,
) -> Option<Seq<char>>
    decreases sections,
{
    if sections.len() == 0 {
        None
    } else if spec_section_error(sections[0].0@, sections[0].1, path) is Some {
        spec_section_error(sections[0].0@, sections[0].1, path)
    } else {
        spec_sections_first_error(sections.drop_first(), path)
    }
}

/// The first profile's failure message, in file order.
pub open spec fn spec_profiles_first_error(
    profiles: Seq<(String, ProfileConfig)>,
    path: Seq<char>,
) -> Option<Seq<char>>
    decreases profiles,
{
    if profiles.len() == 0 {
        None
    } else if spec_profile_error(profiles[0].0@, profiles[0].1, path) is Some {
        spec_profile_error(profiles[0].0@, profiles[0].1, path)
    } else {
        spec_profiles_first_error(profiles.drop_first(), path)
    }
}

/// The message a whole file fails validation with: provider sections are
/// checked before profiles, each in file order.
pub open spec fn spec_config_first_error(config: ConfigFile, path: Seq<char>) -> Option<
    Seq<char>,
> {
    let section_err = match config.providers {
        Some(sections) => spec_sections_first_error(sections@, path),
        None => None,
    };
    if section_err is Some {
        section_err
    } else {
        match config.profiles {
            Some(profiles) => spec_profiles_first_error(profiles@, path),
            None => None,
        }
    }
}

/// Whether a whole configuration file is acceptable: every provider section
/// and every profile, selected or not.
pub open spec fn spec_config_ok(config: ConfigFile) -> bool {
    &&& (config.providers matches Some(ps) ==> forall|i: int|
        0 <= i < ps@.len() ==> spec_section_ok(#[trigger] ps@[i].0@, ps@[i].1))
    &&& (config.profiles matches Some(ps) ==> forall|i: int|
        0 <= i < ps@.len() ==> (#[trigger] ps@[i].1).spec_ok())
}

/// Validates every declared provider section and profile of a file, in file
/// order, failing fast on the first bad one.
#[verifier::loop_isolation(false)]
pub fn validate_config_file(config: &ConfigFile, path: &str) -> (r: Result<(), String>)
    ensures
        r is Ok <==> spec_config_ok(*config),
        r matches Err(msg) ==> spec_config_first_error(*config, path@) == Some(msg@),
{
    if let Some(providers) = &config.providers {
        let ghost all = providers@;
        proof {
            assert(all.skip(0) =~= all);
        }
        let mut i: usize = 0;
        while i < providers.len()
            invariant
                i <= providers.len(),
                all == providers@,
                forall|j: int|
                    0 <= j < i ==> spec_section_ok(
                        #[trigger] providers@[j].0@,
                        providers@[j].1,
                    ),
                spec_sections_first_error(all, path@) == spec_sections_first_error(
                    all.skip(i as int),
                    path@,
                ),
            decreases providers.len() - i,
        {
            proof {
                assert(all.skip(i as int)[0] == all[i as int]);
            }
            let provider_name = &providers[i].0;
            let provider_section = &providers[i].1;
            let normalized = normalized_provider_value(provider_name.as_str());
            match normalized {
                None => {
                    let mut msg = concat2(
                        "Invalid provider section 'providers.",
                        provider_name.as_str(),
                    );
                    msg.append("' in config file '");
                    msg.append(path);
                    msg.append("'. Supported values: openai, fireworks.");
                    proof {
                        assert(msg@ =~= "Invalid provider section 'providers."@
                            + provider_name@ + "' in config file '"@ + path@
                            + "'. Supported values: openai, fireworks."@);
                        assert(spec_sections_first_error(all.skip(i as int), path@) == Some(
                            msg@,
                        ));
                    }
                    return Err(msg);
                },
                Some(provider) => {
                    if let Some(defaults) = &provider_section.defaults {
                        let section = concat3("providers.", provider, ".defaults");
                        let checked = validate_profile_fields(
                            path,
                            section.as_str(),
                            None,
                            &defaults.temperature,
                            &defaults.max_tokens,
                            &defaults.timeout,
                            &defaults.retry_delay,
                            &defaults.output,
                        );
                        if let Err(msg) = checked {
                            proof {
                                assert(spec_sections_first_error(all.skip(i as int), path@)
                                    == Some(msg@));
                            }
                            return Err(msg);
                        }
                    }
                },
            }
            proof {
                assert(all.skip(i as int).drop_first() =~= all.skip(i + 1));
            }
            i = i + 1;
        }
        proof {
            assert(all.skip(providers@.len() as int).len() == 0);
        }
    }
    if let Some(profiles) = &config.profiles {
        let ghost all = profiles@;
        proof {
            assert(all.skip(0) =~= all);
        }
        let mut i: usize = 0;
        while i < profiles.len()
            invariant
                i <= profiles.len(),
                all == profiles@,
                config.providers matches Some(ps) ==> forall|j: int|
                    0 <= j < ps@.len() ==> spec_section_ok(#[trigger] ps@[j].0@, ps@[j].1),
                config.providers matches Some(ps) ==> spec_sections_first_error(ps@, path@)
                    is None,
                forall|j: int| 0 <= j < i ==> (#[trigger] profiles@[j].1).spec_ok(),
                spec_profiles_first_error(all, path@) == spec_profiles_first_error(
                    all.skip(i as int),
                    path@,
                ),
            decreases profiles.len() - i,
        {
            proof {
                assert(all.skip(i as int)[0] == all[i as int]);
            }
            let checked = validate_profile(path, profiles[i].0.as_str(), &profiles[i].1);
            if let Err(msg) = checked {
                proof {
                    assert(spec_profile_error(all[i as int].0@, all[i as int].1, path@)
                        == Some(msg@));
                    assert(spec_profiles_first_error(all.skip(i as int), path@) == Some(msg@));
                }
                return Err(msg);
            }
            proof {
                assert(all.skip(i as int).drop_first() =~= all.skip(i + 1));
            }
            i = i + 1;
        }
        proof {
            assert(all.skip(profiles@.len() as int).len() == 0);
        }
    }
    Ok(())
}

/// The profile stored under a name, first declaration first.
pub open spec fn spec_profile_lookup(profiles: Seq<(String, ProfileConfig)>, name: Seq<char>)
    -> Option<ProfileConfig>
    decreases profiles,
{
    if profiles.len() == 0 {
        None
    } else if profiles[0].0@ == name {
        Some(profiles[0].1)
    } else {
        spec_profile_lookup(profiles.drop_first(), name)
    }
}

/// Selects the profile stored under a name, or says why there is none: no
/// profiles section at all, or no profile of that name.
#[verifier::loop_isolation(false)]
pub fn profile_from_config<'a>(config: &'a ConfigFile, path: &str, name: &str) -> (r: Result<
    &'a ProfileConfig,
    String,
>)
    ensures
        match r {
            Ok(p) => config.profiles matches Some(ps) && spec_profile_lookup(ps@, name@)
                == Some(*p),
            Err(msg) => {
                ||| (config.profiles is None && msg@ == "Config file '"@ + path@
                    + "' does not contain a [profiles] section."@)
                ||| (config.profiles matches Some(ps) && spec_profile_lookup(ps@, name@)
                    is None && msg@ == "Profile '"@ + name@ + "' not found in config file '"@
                    + path@ + "'."@)
            },
        },
{
    match &config.profiles {
        None => {
            let mut msg = concat3("Config file '", path, "' does not contain a [profiles] section.");
            Err(msg)
        },
        Some(profiles) => {
            let ghost all = profiles@;
            proof {
                assert(all.skip(0) =~= all);
            }
            let mut i: usize = 0;
            while i < profiles.len()
                invariant
                    i <= profiles.len(),
                    all == profiles@,
                    spec_profile_lookup(all, name@) == spec_profile_lookup(
                        all.skip(i as int),
                        name@,
                    ),
                decreases profiles.len() - i,
            {
                proof {
                    assert(all.skip(i as int)[0] == all[i as int]);
                }
                if str_eq(profiles[i].0.as_str(), name) {
                    proof {
                        assert(spec_profile_lookup(all.skip(i as int), name@) == Some(
                            all[i as int].1,
                        ));
                    }
                    return Ok(&profiles[i].1);
                }
                proof {
                    assert(all.skip(i as int).drop_first() =~= all.skip(i + 1));
                }
                i = i + 1;
            }
            let mut msg = concat5("Profile '", name, "' not found in config file '", path, "'.");
            Err(msg)
        },
    }
}

/// The first provider section whose name normalizes to the given canonical
/// provider and which declares a defaults bundle.
pub open spec fn spec_provider_defaults(
    sections: Seq<(String, ProviderSectionConfig)>,
    provider: Seq<char>,
) -> Option<ProviderDefaultsConfig>
    decreases sections,
{
    if sections.len() == 0 {
        None
    } else if spec_normalized_provider(sections[0].0@) == Some(provider) && sections[0].1.defaults
        is Some {
        sections[0].1.defaults
    } else {
        spec_provider_defaults(sections.drop_first(), provider)
    }
}

/// Finds the defaults bundle declared for a canonical provider name, if any
/// section of the file declares one.
#[verifier::loop_isolation(false)]
pub fn provider_defaults_for(config: &ConfigFile, provider: &str) -> (r: Option<
    ProviderDefaultsConfig,
>)
    ensures
        match config.providers {
            Some(sections) => r == spec_provider_defaults(sections@, provider@),
            None => r is None,
        },
{
    match &config.providers {
        None => None,
        Some(sections) => {
            let ghost all = sections@;
            proof {
                assert(all.skip(0) =~= all);
            }
            let mut i: usize = 0;
            while i < sections.len()
                invariant
                    i <= sections.len(),
                    all == sections@,
                    spec_provider_defaults(all, provider@) == spec_provider_defaults(
                        all.skip(i as int),
                        provider@,
                    ),
                decreases sections.len() - i,
            {
                proof {
                    assert(all.skip(i as int)[0] == all[i as int]);
                }
                let matches_provider = match normalized_provider_value(sections[i].0.as_str()) {
                    Some(normalized) => str_eq(normalized, provider),
                    None => false,
                };
                if matches_provider {
                    if let Some(defaults) = &sections[i].1.defaults {
                        proof {
                            assert(spec_provider_defaults(all.skip(i as int), provider@)
                                == all[i as int].1.defaults);
                        }
                        return Some(defaults.clone());
                    }
                }
                proof {
                    assert(all.skip(i as int).drop_first() =~= all.skip(i + 1));
                }
                i = i + 1;
            }
            None
        },
    }
}

/// The first of two optional values.
pub open spec fn spec_or<T>(a: Option<T>, b: Option<T>) -> Option<T> {
    if a is Some {
        a
    } else {
        b
    }
}

/// The overlay of a profile on an optional provider defaults bundle: each
/// field is the profile's where present, else the bundle's; the provider
/// itself always comes from the profile.
pub open spec fn spec_merged(defaults: Option<ProviderDefaultsConfig>, profile: ProfileConfig)
    -> ProfileConfig {
    let d = if defaults is Some {
        defaults->0
    } else {
        ProviderDefaultsConfig {
            model: None,
            system: None,
            temperature: None,
            max_tokens: None,
            timeout: None,
            retries: None,
            retry_delay: None,
            output: None,
            show_usage: None,
        }
    };
    ProfileConfig {
        provider: profile.provider,
        model: spec_or(profile.model, d.model),
        system: spec_or(profile.system, d.system),
        temperature: spec_or(profile.temperature, d.temperature),
        max_tokens: spec_or(profile.max_tokens, d.max_tokens),
        timeout: spec_or(profile.timeout, d.timeout),
        retries: spec_or(profile.retries, d.retries),
        retry_delay: spec_or(profile.retry_delay, d.retry_delay),
        output: spec_or(profile.output, d.output),
        show_usage: spec_or(profile.show_usage, d.show_usage),
    }
}

/// The defaults bundle a profile draws on when loaded alone: the one
/// declared for the provider the profile resolves to — its own provider
/// where it names a supported one, OpenAI otherwise, the provider tiers'
/// final fallback.
pub open spec fn spec_profile_defaults(config: ConfigFile, profile: ProfileConfig) -> Option<
    ProviderDefaultsConfig,
> {
    let provider = if profile.provider matches Some(raw) && spec_normalized_provider(raw@)
        is Some {
        spec_normalized_provider(profile.provider->0@)->0
    } else {
        "openai"@
    };
    match config.providers {
        Some(sections) => spec_provider_defaults(sections@, provider),
        None => None,
    }
}

/// Overlays a profile on a provider's defaults bundle: each field of the
/// result is the profile's where present, else the bundle's. The provider
/// itself always comes from the profile.
pub fn merge_provider_defaults(defaults: Option<&ProviderDefaultsConfig>, profile:
    &ProfileConfig) -> (r: ProfileConfig)
    ensures
        r == spec_merged(
            match defaults {
                Some(d) => Some(*d),
                None => None,
            },
            *profile,
        ),
{
    let d = match defaults {
        Some(d) => (*d).clone(),
        None => ProviderDefaultsConfig::default(),
    };
    ProfileConfig {
        provider: opt_string_clone(&profile.provider),
        model: or_string(&profile.model, d.model),
        system: or_string(&profile.system, d.system),
        temperature: if profile.temperature.is_some() {
            profile.temperature
        } else {
            d.temperature
        },
        max_tokens: if profile.max_tokens.is_some() {
            profile.max_tokens
        } else {
            d.max_tokens
        },
        timeout: if profile.timeout.is_some() {
            profile.timeout
        } else {
            d.timeout
        },
        retries: if profile.retries.is_some() {
            profile.retries
        } else {
            d.retries
        },
        retry_delay: if profile.retry_delay.is_some() {
            profile.retry_delay
        } else {
            d.retry_delay
        },
        output: or_string(&profile.output, d.output),
        show_usage: if profile.show_usage.is_some() {
            profile.show_usage
        } else {
            d.show_usage
        },
    }
}

/// The first optional string cloned where present, else the second moved.
fn or_string(a: &Option<String>, b: Option<String>) -> (r: Option<String>)
    ensures
        r == spec_or(*a, b),
{
    match a {
        Some(s) => Some(s.clone()),
        None => b,
    }
}

/// Loads a named profile out of a validated file: the whole file is
/// validated eagerly, the profile selected by name, and a defaults bundle
/// merged underneath it — the one declared for the provider the profile
/// resolves to on its own (OpenAI when it names none). A full resolution
/// keys the bundle by the provider resolved through all tiers instead:
/// see [`crate::resolve::resolve_request_config`].
pub fn load_profile(config: &ConfigFile, path: &str, name: &str) -> (r: Result<
    ProfileConfig,
    String,
>)
    ensures
        r matches Ok(merged) ==> {
            &&& spec_config_ok(*config)
            &&& (config.profiles matches Some(ps) && (spec_profile_lookup(ps@, name@)
                matches Some(selected) && merged == spec_merged(
                spec_profile_defaults(*config, selected),
                selected,
            )))
        },
        r matches Err(msg) ==> {
            ||| spec_config_first_error(*config, path@) == Some(msg@)
            ||| (spec_config_ok(*config) && config.profiles is None && msg@ == "Config file '"@
                + path@ + "' does not contain a [profiles] section."@)
            ||| (spec_config_ok(*config) && (config.profiles matches Some(ps)
                && spec_profile_lookup(ps@, name@) is None && msg@ == "Profile '"@ + name@
                + "' not found in config file '"@ + path@ + "'."@))
        },
{
    if let Err(msg) = validate_config_file(config, path) {
        return Err(msg);
    }
    let profile = match profile_from_config(config, path, name) {
        Ok(p) => p.clone(),
        Err(msg) => {
            return Err(msg);
        },
    };
    let provider_defaults: Option<ProviderDefaultsConfig> = match &profile.provider {
        Some(raw) => match normalized_provider_value(raw.as_str()) {
            Some(provider) => provider_defaults_for(config, provider),
            None => provider_defaults_for(config, "openai"),
        },
        None => provider_defaults_for(config, "openai"),
    };
    match &provider_defaults {
        Some(d) => Ok(merge_provider_defaults(Some(d), &profile)),
        None => Ok(merge_provider_defaults(None, &profile)),
    }
}

/// Where the configuration file lives, given the relevant environment
/// values: `MP_CONFIG` wins when set and non-blank; else
/// `$XDG_CONFIG_HOME/mpipe/config.toml` when that variable is set and
/// non-blank; else `$HOME/.config/mpipe/config.toml`; with no home at all
/// the path cannot be resolved.
pub open spec fn spec_config_path(
    mp_config: Option<Seq<char>>,
    xdg: Option<Seq<char>>,
    home: Option<Seq<char>>,
) -> Option<Seq<char>> {
    if mp_config matches Some(raw) && spec_trim(raw).len() > 0 {
        Some(spec_trim(mp_config->0))
    } else if xdg matches Some(raw) && spec_trim(raw).len() > 0 {
        Some(spec_join_path(spec_trim(xdg->0)) + "mpipe/config.toml"@)
    } else if home is Some {
        Some(spec_join_path(home->0) + ".config/mpipe/config.toml"@)
    } else {
        None
    }
}

/// A directory prefix with exactly one trailing separator.
pub open spec fn spec_join_path(base: Seq<char>) -> Seq<char> {
    if base.len() > 0 && base.last() == '/' {
        base
    } else {
        base + seq!['/']
    }
}

/// Appends one path component under a directory, adding a separator only
/// where the directory does not already end in one.
fn join_path(base: &str, component: &str) -> (r: String)
    ensures
        r@ == spec_join_path(base@) + component@,
{
    let cs = crate::text::chars_vec(base);
    let mut r = String::from_str(base);
    if cs.len() == 0 || cs[cs.len() - 1] != '/' {
        crate::text::push_char(&mut r, '/');
    }
    r.append(component);
    proof {
        assert(r@ =~= spec_join_path(base@) + component@);
    }
    r
}

/// Resolves the configuration file's path from the relevant environment
/// values.
pub fn config_path(mp_config: Option<&str>, xdg_config_home: Option<&str>, home: Option<&str>)
    -> (r: Result<String, String>)
    ensures
        ({
            let mpv = match mp_config {
                Some(s) => Some(s@),
                None => None::<Seq<char>>,
            };
            let xdgv = match xdg_config_home {
                Some(s) => Some(s@),
                None => None::<Seq<char>>,
            };
            let homev = match home {
                Some(s) => Some(s@),
                None => None::<Seq<char>>,
            };
            match r {
                Ok(path) => spec_config_path(mpv, xdgv, homev) == Some(path@),
                Err(msg) => spec_config_path(mpv, xdgv, homev) is None && msg@
                    == "Cannot resolve config path: set MP_CONFIG or HOME/XDG_CONFIG_HOME."@,
            }
        }),
{
    if let Some(raw) = mp_config {
        let trimmed = trim_string(raw);
        if trimmed.as_str().unicode_len() > 0 {
            return Ok(trimmed);
        }
    }
    if let Some(raw) = xdg_config_home {
        let trimmed = trim_string(raw);
        if trimmed.as_str().unicode_len() > 0 {
            return Ok(join_path(trimmed.as_str(), "mpipe/config.toml"));
        }
    }
    match home {
        Some(raw) => Ok(join_path(raw, ".config/mpipe/config.toml")),
        None => Err(
            String::from_str("Cannot resolve config path: set MP_CONFIG or HOME/XDG_CONFIG_HOME."),
        ),
    }
}

/// Validates the configuration file and, when a profile name is given, that
/// the profile exists.
pub fn validate_config(config: &ConfigFile, path: &str, profile_name: Option<&str>) -> (r:
    Result<(), String>)
    ensures
        r is Ok <==> spec_config_ok(*config) && (profile_name matches Some(name) ==> (
        config.profiles matches Some(ps) && spec_profile_lookup(ps@, name@) is Some)),
        r matches Err(msg) ==> {
            ||| spec_config_first_error(*config, path@) == Some(msg@)
            ||| (spec_config_ok(*config) && profile_name is Some && config.profiles is None
                && msg@ == "Config file '"@ + path@
                + "' does not contain a [profiles] section."@)
            ||| (spec_config_ok(*config) && profile_name is Some && (config.profiles
                matches Some(ps) && spec_profile_lookup(ps@, spec_opt_name(profile_name)->0)
                is None && msg@ == "Profile '"@ + spec_opt_name(profile_name)->0
                + "' not found in config file '"@ + path@ + "'."@))
        },
{
    if let Err(msg) = validate_config_file(config, path) {
        return Err(msg);
    }
    if let Some(name) = profile_name {
        if let Err(msg) = profile_from_config(config, path, name) {
            return Err(msg);
        }
    }
    Ok(())
}

} // verus!
