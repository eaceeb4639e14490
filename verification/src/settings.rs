//! The settings of a RustCode installation, their defaults, and how a
//! `key = value` update changes them.

use vstd::prelude::*;
use crate::api_config::{
    ApiConfig, ApiConfigError, ApiProtocol, ApiProvider, EnvSnapshot, FallbackTarget, csv_items,
    effective_provider, env_view, fallback_chain_set, provider_base_url, provider_model,
    provider_named,
};
use crate::compact::CompactSettings;
use crate::config::SessionSettings;
use crate::numbers::{parse_bool, parse_bool_spec, parse_u64, parse_unsigned, parse_usize};
use crate::paths::{config_dir_spec, config_dir_under, join_path, path_join};
use crate::permissions::{PermissionMode, PermissionsSettings};
use crate::text::{
    concat, lower, opt_view, split, split_char, str_eq, to_lower_str, trim, trim_str, views,
};

verus! {

/// Memory persistence.
#[derive(Debug)]
pub struct MemorySettings {
    pub enabled: bool,
    pub path: String,
    pub consolidation_interval: u64,
    pub max_memories: usize,
}

impl MemorySettings {
    /// The defaults for a home directory (`.` when unknown): enabled, stored
    /// in `<home>/.rustcode/memory.json`, consolidated every 24 hours,
    /// at most 1000 memories.
    pub fn for_home(home: &Option<String>) -> (m: Self)
        ensures
            m.enabled,
            m.path@ == path_join(config_dir_spec(opt_view(*home)), "memory.json"@),
            m.consolidation_interval == 24,
            m.max_memories == 1000,
    {
        let dir = config_dir_under(home);
        MemorySettings {
            enabled: true,
            path: join_path(dir.as_str(), "memory.json"),
            consolidation_interval: 24,
            max_memories: 1000,
        }
    }
}

/// Voice input. The silence threshold is an `f32` kept by its bit pattern
/// (`f32::to_bits`).
#[derive(Debug, Clone, Copy, PartialEq, Eq, Structural)]
pub struct VoiceSettings {
    pub enabled: bool,
    pub push_to_talk: bool,
    pub silence_threshold_bits: u32,
    pub sample_rate: u32,
}

/// The bit pattern of the default silence threshold, `0.01_f32`.
pub const DEFAULT_SILENCE_THRESHOLD_BITS: u32 = 0x3C23_D70A;

impl Default for VoiceSettings {
    fn default() -> (v: Self)
        ensures
            !v.enabled,
            !v.push_to_talk,
            v.silence_threshold_bits == DEFAULT_SILENCE_THRESHOLD_BITS,
            v.sample_rate == 16000,
    {
        VoiceSettings {
            enabled: false,
            push_to_talk: false,
            silence_threshold_bits: DEFAULT_SILENCE_THRESHOLD_BITS,
            sample_rate: 16000,
        }
    }
}

/// The plugin system.
#[derive(Debug)]
pub struct PluginSettings {
    pub enabled: bool,
    pub plugin_dir: String,
    pub auto_update: bool,
}

impl PluginSettings {
    /// The defaults for a home directory (`.` when unknown): enabled, plugins
    /// in `<home>/.rustcode/plugins`, updated automatically.
    pub fn for_home(home: &Option<String>) -> (p: Self)
        ensures
            p.enabled,
            p.plugin_dir@ == path_join(config_dir_spec(opt_view(*home)), "plugins"@),
            p.auto_update,
    {
        let dir = config_dir_under(home);
        PluginSettings { enabled: true, plugin_dir: join_path(dir.as_str(), "plugins"), auto_update: true }
    }
}

/// First-run onboarding state.
#[derive(Debug)]
pub struct OnboardingSettings {
    pub has_completed_onboarding: bool,
    pub last_onboarding_version: String,
}

impl Default for OnboardingSettings {
    fn default() -> (o: Self)
        ensures
            !o.has_completed_onboarding,
            o.last_onboarding_version@.len() == 0,
    {
        OnboardingSettings { has_completed_onboarding: false, last_onboarding_version: String::new() }
    }
}

/// The version of this program, recorded when onboarding completes.
pub const APP_VERSION: &'static str = "0.1.3";

/// All settings.
#[derive(Debug)]
pub struct Settings {
    pub api: ApiConfig,
    pub model: String,
    pub verbose: bool,
    pub working_dir: String,
    pub memory: MemorySettings,
    pub voice: VoiceSettings,
    pub plugins: PluginSettings,
    pub permissions: PermissionsSettings,
    pub session: SessionSettings,
    pub compact: CompactSettings,
    pub onboarding: OnboardingSettings,
}

impl Settings {
    /// The defaults under the environment `env` and the home directory
    /// `home`: the API configuration the environment selects, its
    /// provider's default model, the working directory `.`, and each
    /// section's defaults.
    pub fn defaults(env: &EnvSnapshot, home: &Option<String>) -> (s: Self)
        ensures
            crate::api_config::config_from_env(env_view(*env), s.api),
            s.model@ == provider_model(effective_provider(s.api, env_view(*env))),
            !s.verbose,
            s.working_dir@ == "."@,
            s.memory.enabled,
            s.memory.path@ == path_join(config_dir_spec(opt_view(*home)), "memory.json"@),
            s.memory.consolidation_interval == 24,
            s.memory.max_memories == 1000,
            !s.voice.enabled && !s.voice.push_to_talk && s.voice.sample_rate == 16000,
            s.voice.silence_threshold_bits == DEFAULT_SILENCE_THRESHOLD_BITS,
            s.plugins.enabled && s.plugins.auto_update,
            s.plugins.plugin_dir@ == path_join(config_dir_spec(opt_view(*home)), "plugins"@),
            s.permissions@.mode == PermissionMode::AllowAll,
            s.permissions@.allow.len() == 0 && s.permissions@.deny.len() == 0
                && s.permissions@.ask.len() == 0,
            s.session.auto_restore_last_session && s.session.persist_transcript,
            s.compact.enabled && s.compact.auto_compact && s.compact.reactive_compact
                && s.compact.enable_microcompact,
            s.compact.max_turns_before_compact == 24,
            s.compact.max_tokens_before_compact == 32_000,
            s.compact.preserve_recent_turns == 4,
            s.compact.reserved_completion_budget == 4_096,
            s.compact.summary_model is None,
            !s.onboarding.has_completed_onboarding,
            s.onboarding.last_onboarding_version@.len() == 0,
    {
        let api = ApiConfig::from_env(env);
        let model = String::from_str(api.default_model(env));
        Settings {
            api,
            model,
            verbose: false,
            working_dir: String::from_str("."),
            memory: MemorySettings::for_home(home),
            voice: VoiceSettings::default(),
            plugins: PluginSettings::for_home(home),
            permissions: PermissionsSettings::default(),
            session: SessionSettings::default(),
            compact: CompactSettings::default(),
            onboarding: OnboardingSettings::default(),
        }
    }

    /// Whether the first-run onboarding still has to run.
    pub fn should_run_onboarding(&self) -> (b: bool)
        ensures
            b == !self.onboarding.has_completed_onboarding,
    {
        !self.onboarding.has_completed_onboarding
    }

    /// Records that onboarding completed with this version of the program.
    pub fn mark_onboarding_complete(&mut self)
        ensures
            final(self).onboarding.has_completed_onboarding,
            final(self).onboarding.last_onboarding_version@ == APP_VERSION@,
            *final(self) == (Settings { onboarding: final(self).onboarding, ..*old(self) }),
    {
        self.onboarding.has_completed_onboarding = true;
        self.onboarding.last_onboarding_version = String::from_str(APP_VERSION);
    }
}

/// Why a settings update was refused.
#[derive(Debug, Clone, PartialEq, Eq)]
pub enum SettingsError {
    Api(ApiConfigError),
    UnsupportedPermissionsMode(String),
    UnknownSetting(String),
}

impl SettingsError {
    /// The message shown to the user.
    pub fn message(&self) -> (m: String)
        ensures
            match self {
                SettingsError::Api(e) => m@ == crate::api_config::error_text(e@),
                SettingsError::UnsupportedPermissionsMode(v) => m@ == "Unsupported permissions mode: "@ + v@,
                SettingsError::UnknownSetting(k) => m@ == "Unknown setting: "@ + k@,
            },
    {
        match self {
            SettingsError::Api(e) => e.message(),
            SettingsError::UnsupportedPermissionsMode(v) => concat("Unsupported permissions mode: ", v.as_str()),
            SettingsError::UnknownSetting(k) => concat("Unknown setting: ", k.as_str()),
        }
    }
}

/// The boolean `value` parses to, else `default`.
pub open spec fn bool_or(value: Seq<char>, default: bool) -> bool {
    match parse_bool_spec(value) {
        Some(b) => b,
        None => default,
    }
}

/// The number `value` parses to as a `usize`, else `default`.
pub open spec fn usize_or(value: Seq<char>, default: usize) -> usize {
    match parse_unsigned(value, usize::MAX as int) {
        Some(n) => n as usize,
        None => default,
    }
}

/// The number `value` parses to as a `u64`, else `default`.
pub open spec fn u64_or(value: Seq<char>, default: u64) -> u64 {
    match parse_unsigned(value, u64::MAX as int) {
        Some(n) => n as u64,
        None => default,
    }
}

/// The permission mode a name selects.
pub open spec fn mode_named(key: Seq<char>) -> Option<PermissionMode> {
    if key == "allow_all"@ || key == "allow"@ {
        Some(PermissionMode::AllowAll)
    } else if key == "ask"@ {
        Some(PermissionMode::Ask)
    } else if key == "deny_all"@ || key == "deny"@ {
        Some(PermissionMode::DenyAll)
    } else {
        None
    }
}

/// Whether `key` is one of the three spellings given.
pub open spec fn key_is(key: Seq<char>, a: Seq<char>, b: Seq<char>, c: Seq<char>) -> bool {
    key == a || key == b || key == c
}

/// How the update `key = value` changes the settings `s` into `n`,
/// returning `r`. Boolean and numeric values that do not parse fall back to
/// the key's default; an unknown key, an unknown provider, protocol or
/// permission mode, and a bad fallback chain are refused and change
/// nothing.
pub open spec fn setting_update(
    s: Settings,
    key: Seq<char>,
    value: Seq<char>,
    env: Seq<(Seq<char>, Seq<char>)>,
    json_chain: Option<Result<Vec<FallbackTarget>, String>>,
    n: Settings,
    r: Result<(), SettingsError>,
) -> bool {
    if key == "model"@ {
        r is Ok && n == (Settings { model: n.model, ..s }) && n.model@ == value
    } else if key == "verbose"@ {
        r is Ok && n == (Settings { verbose: bool_or(value, false), ..s })
    } else if key_is(key, "provider"@, "api.provider"@, "api_provider"@) {
        match provider_named(lower(trim(value))) {
            Some(p) => {
                &&& r is Ok
                &&& n == (Settings { api: n.api, model: n.model, ..s })
                &&& n.api == (ApiConfig {
                    provider: p,
                    protocol: crate::api_config::provider_protocol(p),
                    base_url: n.api.base_url,
                    ..s.api
                })
                &&& n.api.base_url@ == provider_base_url(p)
                &&& n.model@ == provider_model(effective_provider(n.api, env))
            },
            None => r matches Err(SettingsError::Api(ApiConfigError::UnsupportedProvider(v))) && v@
                == value && n == s,
        }
    } else if key_is(key, "protocol"@, "api.protocol"@, "api_protocol"@) {
        match crate::api_config::protocol_named(lower(trim(value))) {
            Some(p) => r is Ok && n == (Settings { api: ApiConfig { protocol: p, ..s.api }, ..s }),
            None => r matches Err(SettingsError::Api(ApiConfigError::UnsupportedProtocol(v))) && v@
                == value && n == s,
        }
    } else if key_is(key, "custom_provider_name"@, "api.custom_provider_name"@, "custom_provider"@) {
        r is Ok && n == (Settings { api: ApiConfig { custom_provider_name: n.api.custom_provider_name, ..s.api }, ..s })
            && opt_view(n.api.custom_provider_name) == Some(value)
    } else if key_is(key, "api_key"@, "api.api_key"@, "api_key_value"@) {
        r is Ok && n == (Settings { api: ApiConfig { api_key: n.api.api_key, ..s.api }, ..s })
            && opt_view(n.api.api_key) == Some(value)
    } else if key_is(key, "base_url"@, "api.base_url"@, "api_base_url"@) {
        r is Ok && n == (Settings { api: ApiConfig { base_url: n.api.base_url, ..s.api }, ..s })
            && n.api.base_url@ == value
    } else if key == "max_tokens"@ {
        r is Ok && n == (Settings { api: ApiConfig { max_tokens: usize_or(value, 4096), ..s.api }, ..s })
    } else if key == "timeout"@ {
        r is Ok && n == (Settings { api: ApiConfig { timeout: u64_or(value, 120), ..s.api }, ..s })
    } else if key == "streaming"@ {
        r is Ok && n == (Settings { api: ApiConfig { streaming: bool_or(value, true), ..s.api }, ..s })
    } else if key == "fallback.enabled"@ || key == "api.fallback.enabled"@ {
        r is Ok && n == (Settings {
            api: ApiConfig {
                fallback: crate::api_config::FallbackConfig { enabled: bool_or(value, false), ..s.api.fallback },
                ..s.api
            },
            ..s
        })
    } else if key == "fallback.chain"@ || key == "api.fallback.chain"@ {
        &&& n == (Settings { api: n.api, ..s })
        &&& exists|ar: Result<(), ApiConfigError>|
            fallback_chain_set(s.api, value, json_chain, n.api, ar) && match ar {
                Ok(()) => r is Ok,
                Err(e) => r == Err::<(), SettingsError>(SettingsError::Api(e)),
            }
    } else if key == "memory.enabled"@ {
        r is Ok && n == (Settings { memory: MemorySettings { enabled: bool_or(value, true), ..s.memory }, ..s })
    } else if key == "voice.enabled"@ {
        r is Ok && n == (Settings { voice: VoiceSettings { enabled: bool_or(value, false), ..s.voice }, ..s })
    } else if key == "permissions.mode"@ {
        match mode_named(lower(trim(value))) {
            Some(m) => r is Ok && n == (Settings {
                permissions: PermissionsSettings { mode: m, ..s.permissions },
                ..s
            }),
            None => r matches Err(SettingsError::UnsupportedPermissionsMode(v)) && v@ == lower(
                trim(value),
            ) && n == s,
        }
    } else if key == "permissions.allow_tools"@ {
        r is Ok && n == (Settings {
            permissions: PermissionsSettings { allow_tools: n.permissions.allow_tools, ..s.permissions },
            ..s
        }) && views(n.permissions.allow_tools@) == csv_items(split(value, ','))
    } else if key == "permissions.deny_tools"@ {
        r is Ok && n == (Settings {
            permissions: PermissionsSettings { deny_tools: n.permissions.deny_tools, ..s.permissions },
            ..s
        }) && views(n.permissions.deny_tools@) == csv_items(split(value, ','))
    } else if key == "permissions.ask_tools"@ {
        r is Ok && n == (Settings {
            permissions: PermissionsSettings { ask_tools: n.permissions.ask_tools, ..s.permissions },
            ..s
        }) && views(n.permissions.ask_tools@) == csv_items(split(value, ','))
    } else if key == "session.auto_restore_last_session"@ {
        r is Ok && n == (Settings {
            session: SessionSettings { auto_restore_last_session: bool_or(value, true), ..s.session },
            ..s
        })
    } else if key == "session.persist_transcript"@ {
        r is Ok && n == (Settings {
            session: SessionSettings { persist_transcript: bool_or(value, true), ..s.session },
            ..s
        })
    } else if key == "compact.enabled"@ {
        r is Ok && n == (Settings { compact: CompactSettings { enabled: bool_or(value, true), ..s.compact }, ..s })
    } else if key == "compact.auto_compact"@ {
        r is Ok && n == (Settings {
            compact: CompactSettings { auto_compact: bool_or(value, true), ..s.compact },
            ..s
        })
    } else if key == "compact.max_turns_before_compact"@ {
        r is Ok && n == (Settings {
            compact: CompactSettings { max_turns_before_compact: usize_or(value, 24), ..s.compact },
            ..s
        })
    } else if key == "compact.max_tokens_before_compact"@ {
        r is Ok && n == (Settings {
            compact: CompactSettings { max_tokens_before_compact: usize_or(value, 32_000), ..s.compact },
            ..s
        })
    } else if key == "compact.preserve_recent_turns"@ {
        r is Ok && n == (Settings {
            compact: CompactSettings { preserve_recent_turns: usize_or(value, 4), ..s.compact },
            ..s
        })
    } else if key == "compact.summary_model"@ {
        r is Ok && n == (Settings {
            compact: CompactSettings { summary_model: n.compact.summary_model, ..s.compact },
            ..s
        }) && opt_view(n.compact.summary_model) == if trim(value).len() == 0 {
            None
        } else {
            Some(trim(value))
        }
    } else if key == "onboarding.completed"@ {
        r is Ok && n == (Settings {
            onboarding: OnboardingSettings { has_completed_onboarding: bool_or(value, false), ..s.onboarding },
            ..s
        })
    } else {
        r matches Err(SettingsError::UnknownSetting(k)) && k@ == key && n == s
    }
}

fn bool_or_exec(value: &str, default: bool) -> (b: bool)
    ensures
        b == bool_or(value@, default),
{
    match parse_bool(value) {
        Some(b) => b,
        None => default,
    }
}

fn usize_or_exec(value: &str, default: usize) -> (n: usize)
    ensures
        n == usize_or(value@, default),
{
    match parse_usize(value) {
        Some(n) => n,
        None => default,
    }
}

fn u64_or_exec(value: &str, default: u64) -> (n: u64)
    ensures
        n == u64_or(value@, default),
{
    match parse_u64(value) {
        Some(n) => n,
        None => default,
    }
}

/// The trimmed, non-empty items of a comma-separated list.
pub fn split_list(value: &str) -> (r: Vec<String>)
    ensures
        views(r@) == csv_items(split(value@, ',')),
{
    let pieces = split_char(value, ',');
    let ghost pv = views(pieces@);
    let mut out: Vec<String> = Vec::new();
    let mut i: usize = 0;
    while i < pieces.len()
        invariant
            i <= pieces.len(),
            pv == views(pieces@),
            views(out@) == csv_items(pv.subrange(0, i as int)),
        decreases pieces.len() - i,
    {
        let ghost before = views(out@);
        let ghost pre = pv.subrange(0, i + 1);
        assert(pre.drop_last() =~= pv.subrange(0, i as int));
        assert(pre.last() == pieces@[i as int]@);
        let item = trim_str(pieces[i].as_str());
        if item.as_str().unicode_len() > 0 {
            out.push(item);
            assert(views(out@) =~= before.push(trim(pre.last())));
        }
        i = i + 1;
    }
    assert(pv.subrange(0, pieces.len() as int) =~= pv);
    out
}

fn key_is_exec(key: &str, a: &str, b: &str, c: &str) -> (r: bool)
    ensures
        r == key_is(key@, a@, b@, c@),
{
    str_eq(key, a) || str_eq(key, b) || str_eq(key, c)
}

fn mode_named_exec(key: &str) -> (r: Option<PermissionMode>)
    ensures
        r == mode_named(key@),
{
    if str_eq(key, "allow_all") || str_eq(key, "allow") {
        Some(PermissionMode::AllowAll)
    } else if str_eq(key, "ask") {
        Some(PermissionMode::Ask)
    } else if str_eq(key, "deny_all") || str_eq(key, "deny") {
        Some(PermissionMode::DenyAll)
    } else {
        None
    }
}

impl Settings {
    /// Applies the update `key = value` under the environment `env`, as
    /// `setting_update` describes. For `fallback.chain` with a JSON list,
    /// `json_chain` is the caller's parse of it.
    #[verifier::rlimit(40)]
    pub fn apply_setting(
        &mut self,
        key: &str,
        value: &str,
        env: &EnvSnapshot,
        json_chain: Option<Result<Vec<FallbackTarget>, String>>,
    ) -> (r: Result<(), SettingsError>)
        ensures
            setting_update(*old(self), key@, value@, env_view(*env), json_chain, *final(self), r),
    {
        if str_eq(key, "model") {
            self.model = String::from_str(value);
            Ok(())
        } else if str_eq(key, "verbose") {
            self.verbose = bool_or_exec(value, false);
            Ok(())
        } else if key_is_exec(key, "provider", "api.provider", "api_provider") {
            match self.api.set_provider(value) {
                Ok(()) => {
                    self.model = String::from_str(self.api.default_model(env));
                    Ok(())
                },
                Err(e) => Err(SettingsError::Api(e)),
            }
        } else if key_is_exec(key, "protocol", "api.protocol", "api_protocol") {
            match self.api.set_protocol(value) {
                Ok(()) => Ok(()),
                Err(e) => Err(SettingsError::Api(e)),
            }
        } else if key_is_exec(key, "custom_provider_name", "api.custom_provider_name", "custom_provider") {
            self.api.custom_provider_name = Some(String::from_str(value));
            Ok(())
        } else if key_is_exec(key, "api_key", "api.api_key", "api_key_value") {
            self.api.api_key = Some(String::from_str(value));
            Ok(())
        } else if key_is_exec(key, "base_url", "api.base_url", "api_base_url") {
            self.api.base_url = String::from_str(value);
            Ok(())
        } else if str_eq(key, "max_tokens") {
            self.api.max_tokens = usize_or_exec(value, 4096);
            Ok(())
        } else if str_eq(key, "timeout") {
            self.api.timeout = u64_or_exec(value, 120);
            Ok(())
        } else if str_eq(key, "streaming") {
            self.api.streaming = bool_or_exec(value, true);
            Ok(())
        } else if str_eq(key, "fallback.enabled") || str_eq(key, "api.fallback.enabled") {
            self.api.fallback.enabled = bool_or_exec(value, false);
            Ok(())
        } else if str_eq(key, "fallback.chain") || str_eq(key, "api.fallback.chain") {
            let ar = self.api.set_fallback_chain_from_str(value, json_chain);
            match ar {
                Ok(()) => Ok(()),
                Err(e) => Err(SettingsError::Api(e)),
            }
        } else if str_eq(key, "memory.enabled") {
            self.memory.enabled = bool_or_exec(value, true);
            Ok(())
        } else if str_eq(key, "voice.enabled") {
            self.voice.enabled = bool_or_exec(value, false);
            Ok(())
        } else if str_eq(key, "permissions.mode") {
            let name = to_lower_str(trim_str(value).as_str());
            match mode_named_exec(name.as_str()) {
                Some(m) => {
                    self.permissions.mode = m;
                    Ok(())
                },
                None => Err(SettingsError::UnsupportedPermissionsMode(name)),
            }
        } else if str_eq(key, "permissions.allow_tools") {
            self.permissions.allow_tools = split_list(value);
            Ok(())
        } else if str_eq(key, "permissions.deny_tools") {
            self.permissions.deny_tools = split_list(value);
            Ok(())
        } else if str_eq(key, "permissions.ask_tools") {
            self.permissions.ask_tools = split_list(value);
            Ok(())
        } else if str_eq(key, "session.auto_restore_last_session") {
            self.session.auto_restore_last_session = bool_or_exec(value, true);
            Ok(())
        } else if str_eq(key, "session.persist_transcript") {
            self.session.persist_transcript = bool_or_exec(value, true);
            Ok(())
        } else if str_eq(key, "compact.enabled") {
            self.compact.enabled = bool_or_exec(value, true);
            Ok(())
        } else if str_eq(key, "compact.auto_compact") {
            self.compact.auto_compact = bool_or_exec(value, true);
            Ok(())
        } else if str_eq(key, "compact.max_turns_before_compact") {
            self.compact.max_turns_before_compact = usize_or_exec(value, 24);
            Ok(())
        } else if str_eq(key, "compact.max_tokens_before_compact") {
            self.compact.max_tokens_before_compact = usize_or_exec(value, 32_000);
            Ok(())
        } else if str_eq(key, "compact.preserve_recent_turns") {
            self.compact.preserve_recent_turns = usize_or_exec(value, 4);
            Ok(())
        } else if str_eq(key, "compact.summary_model") {
            let trimmed = trim_str(value);
            self.compact.summary_model = if trimmed.as_str().unicode_len() == 0 {
                None
            } else {
                Some(trimmed)
            };
            Ok(())
        } else if str_eq(key, "onboarding.completed") {
            self.onboarding.has_completed_onboarding = bool_or_exec(value, false);
            Ok(())
        } else {
            Err(SettingsError::UnknownSetting(String::from_str(key)))
        }
    }
}

impl Default for Settings {
    /// The defaults of an environment that sets none of the recognised
    /// variables, under the user's home directory.
    fn default() -> (s: Self)
        ensures
            crate::api_config::config_from_env(Seq::empty(), s.api),
            s.model@ == provider_model(ApiProvider::DeepSeek),
            !s.verbose,
            s.working_dir@ == "."@,
            exists|home: Option<Seq<char>>|
                s.memory.path@ == path_join(config_dir_spec(home), "memory.json"@)
                    && s.plugins.plugin_dir@ == path_join(config_dir_spec(home), "plugins"@),
            s.permissions@.mode == PermissionMode::AllowAll,
            s.session.auto_restore_last_session && s.session.persist_transcript,
            s.compact.enabled && s.compact.auto_compact && s.compact.reactive_compact
                && s.compact.enable_microcompact,
            s.compact.max_turns_before_compact == 24,
            s.compact.max_tokens_before_compact == 32_000,
            s.compact.preserve_recent_turns == 4,
            s.compact.reserved_completion_budget == 4_096,
            s.compact.summary_model is None,
            !s.onboarding.has_completed_onboarding,
    {
        let env = EnvSnapshot::empty();
        let home = crate::paths::home_dir();
        let s = Settings::defaults(&env, &home);
        assert(env_view(env) =~= Seq::empty());
        s
    }
}

impl crate::compact::CompactService {
    /// The compaction service of these settings.
    pub fn new(settings: Settings) -> (s: Self)
        ensures
            s.compact_settings() == settings.compact,
    {
        crate::compact::CompactService::from_compact_settings(settings.compact)
    }
}

/// The model that summarises history when compacting: the configured
/// summary model, else the session's model.
pub fn compact_summary_model(settings: &Settings) -> (m: String)
    ensures
        m@ == match opt_view(settings.compact.summary_model) {
            Some(x) => x,
            None => settings.model@,
        },
{
    match &settings.compact.summary_model {
        Some(x) => x.clone(),
        None => settings.model.clone(),
    }
}

} // verus!
