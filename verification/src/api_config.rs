//! Provider presets, protocols, fallback chains and how the effective request
//! targets are resolved from configuration and environment.

use vstd::prelude::*;
use crate::text::{
    chars_of, clone_opt, concat, has_prefix, is_blank_str, lower, non_blank, non_blank_exec,
    normalized_key, opt_view, split, starts_with_str, str_eq, string_of, string_of_range, trim,
    trim_str, vec_is, views,
};

verus! {

/// A provider preset.
#[derive(Debug, Clone, Copy, PartialEq, Eq, Structural)]
pub enum ApiProvider {
    DeepSeek,
    OpenAI,
    Anthropic,
    XAI,
    Gemini,
    DashScope,
    OpenRouter,
    Ollama,
    Custom,
}

/// A request protocol.
#[derive(Debug, Clone, Copy, PartialEq, Eq, Structural)]
pub enum ApiProtocol {
    OpenAi,
    Anthropic,
    Responses,
}

/// The provider a normalised (trimmed, lower-cased) name selects.
pub open spec fn provider_named(key: Seq<char>) -> Option<ApiProvider> {
    if key == "deepseek"@ {
        Some(ApiProvider::DeepSeek)
    } else if key == "openai"@ {
        Some(ApiProvider::OpenAI)
    } else if key == "anthropic"@ {
        Some(ApiProvider::Anthropic)
    } else if key == "xai"@ {
        Some(ApiProvider::XAI)
    } else if key == "gemini"@ {
        Some(ApiProvider::Gemini)
    } else if key == "dashscope"@ || key == "qwen"@ {
        Some(ApiProvider::DashScope)
    } else if key == "openrouter"@ {
        Some(ApiProvider::OpenRouter)
    } else if key == "ollama"@ {
        Some(ApiProvider::Ollama)
    } else if key == "custom"@ {
        Some(ApiProvider::Custom)
    } else {
        None
    }
}

/// The protocol a normalised (trimmed, lower-cased) name selects.
pub open spec fn protocol_named(key: Seq<char>) -> Option<ApiProtocol> {
    if key == "openai"@ || key == "open_ai"@ {
        Some(ApiProtocol::OpenAi)
    } else if key == "anthropic"@ {
        Some(ApiProtocol::Anthropic)
    } else if key == "responses"@ {
        Some(ApiProtocol::Responses)
    } else {
        None
    }
}

/// The canonical name of a provider.
pub open spec fn provider_name(p: ApiProvider) -> Seq<char> {
    match p {
        ApiProvider::DeepSeek => "deepseek"@,
        ApiProvider::OpenAI => "openai"@,
        ApiProvider::Anthropic => "anthropic"@,
        ApiProvider::XAI => "xai"@,
        ApiProvider::Gemini => "gemini"@,
        ApiProvider::DashScope => "dashscope"@,
        ApiProvider::OpenRouter => "openrouter"@,
        ApiProvider::Ollama => "ollama"@,
        ApiProvider::Custom => "custom"@,
    }
}

/// The default endpoint of a provider.
pub open spec fn provider_base_url(p: ApiProvider) -> Seq<char> {
    match p {
        ApiProvider::DeepSeek => "https://api.deepseek.com"@,
        ApiProvider::OpenAI => "https://api.openai.com"@,
        ApiProvider::Anthropic => "https://api.anthropic.com"@,
        ApiProvider::XAI => "https://api.x.ai"@,
        ApiProvider::Gemini => "https://generativelanguage.googleapis.com/v1beta/openai"@,
        ApiProvider::DashScope => "https://dashscope.aliyuncs.com/compatible-mode"@,
        ApiProvider::OpenRouter => "https://openrouter.ai/api"@,
        ApiProvider::Ollama => "http://127.0.0.1:11434"@,
        ApiProvider::Custom => "https://api.example.com"@,
    }
}

/// The default model of a provider.
pub open spec fn provider_model(p: ApiProvider) -> Seq<char> {
    match p {
        ApiProvider::DeepSeek => "deepseek-chat"@,
        ApiProvider::OpenAI => "gpt-4.1-mini"@,
        ApiProvider::Anthropic => "sonnet"@,
        ApiProvider::XAI => "grok-3-mini"@,
        ApiProvider::Gemini => "gemini-2.0-flash"@,
        ApiProvider::DashScope => "qwen-plus"@,
        ApiProvider::OpenRouter => "openai/gpt-4.1-mini"@,
        ApiProvider::Ollama => "llama3.1"@,
        ApiProvider::Custom => "custom-model"@,
    }
}

/// The protocol a preset speaks by default.
pub open spec fn provider_protocol(p: ApiProvider) -> ApiProtocol {
    match p {
        ApiProvider::Anthropic => ApiProtocol::Anthropic,
        ApiProvider::XAI => ApiProtocol::Responses,
        _ => ApiProtocol::OpenAi,
    }
}

/// The environment variables that hold a provider's API key.
pub open spec fn provider_key_vars(p: ApiProvider) -> Seq<Seq<char>> {
    match p {
        ApiProvider::DeepSeek => seq!["DEEPSEEK_API_KEY"@],
        ApiProvider::OpenAI => seq!["OPENAI_API_KEY"@],
        ApiProvider::Anthropic => seq!["ANTHROPIC_API_KEY"@],
        ApiProvider::XAI => seq!["XAI_API_KEY"@],
        ApiProvider::Gemini => seq!["GEMINI_API_KEY"@],
        ApiProvider::DashScope => seq!["DASHSCOPE_API_KEY"@],
        ApiProvider::OpenRouter => seq!["OPENROUTER_API_KEY"@],
        ApiProvider::Ollama => seq!["OLLAMA_API_KEY"@],
        ApiProvider::Custom => Seq::empty(),
    }
}

impl ApiProvider {
    /// The provider named by `value` (trimmed, any ASCII case; `qwen` is an
    /// alias of DashScope).
    pub fn parse(value: &str) -> (r: Option<Self>)
        ensures
            r == provider_named(lower(trim(value@))),
    {
        let k = normalized_key(value);
        if vec_is(&k, "deepseek") {
            Some(ApiProvider::DeepSeek)
        } else if vec_is(&k, "openai") {
            Some(ApiProvider::OpenAI)
        } else if vec_is(&k, "anthropic") {
            Some(ApiProvider::Anthropic)
        } else if vec_is(&k, "xai") {
            Some(ApiProvider::XAI)
        } else if vec_is(&k, "gemini") {
            Some(ApiProvider::Gemini)
        } else if vec_is(&k, "dashscope") || vec_is(&k, "qwen") {
            Some(ApiProvider::DashScope)
        } else if vec_is(&k, "openrouter") {
            Some(ApiProvider::OpenRouter)
        } else if vec_is(&k, "ollama") {
            Some(ApiProvider::Ollama)
        } else if vec_is(&k, "custom") {
            Some(ApiProvider::Custom)
        } else {
            None
        }
    }

    /// The canonical name.
    pub fn as_str(&self) -> (s: &'static str)
        ensures
            s@ == provider_name(*self),
    {
        match self {
            ApiProvider::DeepSeek => "deepseek",
            ApiProvider::OpenAI => "openai",
            ApiProvider::Anthropic => "anthropic",
            ApiProvider::XAI => "xai",
            ApiProvider::Gemini => "gemini",
            ApiProvider::DashScope => "dashscope",
            ApiProvider::OpenRouter => "openrouter",
            ApiProvider::Ollama => "ollama",
            ApiProvider::Custom => "custom",
        }
    }

    /// The default endpoint.
    pub fn default_base_url(&self) -> (s: &'static str)
        ensures
            s@ == provider_base_url(*self),
    {
        match self {
            ApiProvider::DeepSeek => "https://api.deepseek.com",
            ApiProvider::OpenAI => "https://api.openai.com",
            ApiProvider::Anthropic => "https://api.anthropic.com",
            ApiProvider::XAI => "https://api.x.ai",
            ApiProvider::Gemini => "https://generativelanguage.googleapis.com/v1beta/openai",
            ApiProvider::DashScope => "https://dashscope.aliyuncs.com/compatible-mode",
            ApiProvider::OpenRouter => "https://openrouter.ai/api",
            ApiProvider::Ollama => "http://127.0.0.1:11434",
            ApiProvider::Custom => "https://api.example.com",
        }
    }

    /// The default model.
    pub fn default_model(&self) -> (s: &'static str)
        ensures
            s@ == provider_model(*self),
    {
        match self {
            ApiProvider::DeepSeek => "deepseek-chat",
            ApiProvider::OpenAI => "gpt-4.1-mini",
            ApiProvider::Anthropic => "sonnet",
            ApiProvider::XAI => "grok-3-mini",
            ApiProvider::Gemini => "gemini-2.0-flash",
            ApiProvider::DashScope => "qwen-plus",
            ApiProvider::OpenRouter => "openai/gpt-4.1-mini",
            ApiProvider::Ollama => "llama3.1",
            ApiProvider::Custom => "custom-model",
        }
    }

    /// The default protocol: Anthropic Messages for Anthropic, Responses
    /// for xAI, OpenAI Chat for the others.
    pub fn default_protocol(&self) -> (p: ApiProtocol)
        ensures
            p == provider_protocol(*self),
    {
        match self {
            ApiProvider::Anthropic => ApiProtocol::Anthropic,
            ApiProvider::XAI => ApiProtocol::Responses,
            _ => ApiProtocol::OpenAi,
        }
    }

    /// The environment variables that hold this provider's API key.
    pub fn api_key_env_vars(&self) -> (v: Vec<&'static str>)
        ensures
            v@.map_values(|s: &'static str| s@) == provider_key_vars(*self),
    {
        let mut v: Vec<&'static str> = Vec::new();
        match self {
            ApiProvider::DeepSeek => v.push("DEEPSEEK_API_KEY"),
            ApiProvider::OpenAI => v.push("OPENAI_API_KEY"),
            ApiProvider::Anthropic => v.push("ANTHROPIC_API_KEY"),
            ApiProvider::XAI => v.push("XAI_API_KEY"),
            ApiProvider::Gemini => v.push("GEMINI_API_KEY"),
            ApiProvider::DashScope => v.push("DASHSCOPE_API_KEY"),
            ApiProvider::OpenRouter => v.push("OPENROUTER_API_KEY"),
            ApiProvider::Ollama => v.push("OLLAMA_API_KEY"),
            ApiProvider::Custom => {},
        }
        assert(v@.map_values(|s: &'static str| s@) =~= provider_key_vars(*self));
        v
    }
}

impl Default for ApiProvider {
    fn default() -> (p: Self)
        ensures
            p == ApiProvider::DeepSeek,
    {
        ApiProvider::DeepSeek
    }
}

/// The canonical name of a protocol.
pub open spec fn protocol_name(p: ApiProtocol) -> Seq<char> {
    match p {
        ApiProtocol::OpenAi => "openai"@,
        ApiProtocol::Anthropic => "anthropic"@,
        ApiProtocol::Responses => "responses"@,
    }
}

impl ApiProtocol {
    /// The protocol named by `value` (trimmed, any ASCII case).
    pub fn parse(value: &str) -> (r: Option<Self>)
        ensures
            r == protocol_named(lower(trim(value@))),
    {
        let k = normalized_key(value);
        if vec_is(&k, "openai") || vec_is(&k, "open_ai") {
            Some(ApiProtocol::OpenAi)
        } else if vec_is(&k, "anthropic") {
            Some(ApiProtocol::Anthropic)
        } else if vec_is(&k, "responses") {
            Some(ApiProtocol::Responses)
        } else {
            None
        }
    }

    /// The canonical name.
    pub fn as_str(&self) -> (s: &'static str)
        ensures
            s@ == protocol_name(*self),
    {
        match self {
            ApiProtocol::OpenAi => "openai",
            ApiProtocol::Anthropic => "anthropic",
            ApiProtocol::Responses => "responses",
        }
    }
}

impl Default for ApiProtocol {
    fn default() -> (p: Self)
        ensures
            p == ApiProtocol::OpenAi,
    {
        ApiProtocol::OpenAi
    }
}

/// A snapshot of environment variables: (name, value) pairs.
#[derive(Debug, Clone)]
pub struct EnvSnapshot {
    pub vars: Vec<(String, String)>,
}

/// The views of the environment pairs.
pub open spec fn env_view(e: EnvSnapshot) -> Seq<(Seq<char>, Seq<char>)> {
    e.vars@.map_values(|p: (String, String)| (p.0@, p.1@))
}

/// The value of the first variable called `name`, if any.
pub open spec fn env_get(vars: Seq<(Seq<char>, Seq<char>)>, name: Seq<char>) -> Option<Seq<char>>
    decreases vars.len(),
{
    if vars.len() == 0 {
        None
    } else if vars[0].0 == name {
        Some(vars[0].1)
    } else {
        env_get(vars.drop_first(), name)
    }
}

impl EnvSnapshot {
    /// An empty environment.
    pub fn empty() -> (e: Self)
        ensures
            env_view(e).len() == 0,
    {
        EnvSnapshot { vars: Vec::new() }
    }

    /// The value of the variable called `name`.
    pub fn get(&self, name: &str) -> (r: Option<String>)
        ensures
            opt_view(r) == env_get(env_view(*self), name@),
    {
        let ghost ev = env_view(*self);
        assert(ev.skip(0) =~= ev);
        let mut i: usize = 0;
        while i < self.vars.len()
            invariant
                i <= self.vars.len(),
                ev == env_view(*self),
                env_get(ev.skip(i as int), name@) == env_get(ev, name@),
            decreases self.vars.len() - i,
        {
            assert(ev.skip(i as int).drop_first() =~= ev.skip(i + 1));
            assert(ev.skip(i as int)[0] == ev[i as int]);
            if str_eq(self.vars[i].0.as_str(), name) {
                return Some(self.vars[i].1.clone());
            }
            i = i + 1;
        }
        assert(ev.skip(i as int).len() == 0);
        None
    }
}

/// `a` unless it is empty, then `b`.
pub open spec fn or_else<T>(a: Option<T>, b: Option<T>) -> Option<T> {
    match a {
        Some(x) => Some(x),
        None => b,
    }
}

/// The first variable of `names` that the environment sets.
pub open spec fn first_var(env: Seq<(Seq<char>, Seq<char>)>, names: Seq<Seq<char>>) -> Option<Seq<char>>
    decreases names.len(),
{
    if names.len() == 0 {
        None
    } else {
        or_else(env_get(env, names[0]), first_var(env, names.drop_first()))
    }
}

/// The API key in effect: the generic variables first, then the provider's
/// own, the Anthropic key for the Anthropic protocol, the other presets'
/// keys, and finally the configured key.
pub open spec fn resolve_key_spec(
    env: Seq<(Seq<char>, Seq<char>)>,
    provider: ApiProvider,
    protocol: ApiProtocol,
    configured: Option<Seq<char>>,
) -> Option<Seq<char>> {
    or_else(env_get(env, "RUSTCODE_API_KEY"@),
    or_else(env_get(env, "API_KEY"@),
    or_else(first_var(env, provider_key_vars(provider)),
    or_else(if protocol == ApiProtocol::Anthropic { env_get(env, "ANTHROPIC_API_KEY"@) } else { None },
    or_else(env_get(env, "DEEPSEEK_API_KEY"@),
    or_else(env_get(env, "OPENAI_API_KEY"@),
    or_else(env_get(env, "DASHSCOPE_API_KEY"@),
    or_else(env_get(env, "OPENROUTER_API_KEY"@), configured))))))))
}

fn or_else_exec(a: Option<String>, b: Option<String>) -> (r: Option<String>)
    ensures
        opt_view(r) == or_else(opt_view(a), opt_view(b)),
{
    match a {
        Some(x) => Some(x),
        None => b,
    }
}

/// The API key in effect for `provider` speaking `protocol`.
pub fn resolve_api_key(env: &EnvSnapshot, provider: ApiProvider, protocol: ApiProtocol, fallback: Option<String>) -> (r: Option<String>)
    ensures
        opt_view(r) == resolve_key_spec(env_view(*env), provider, protocol, opt_view(fallback)),
{
    let names = provider.api_key_env_vars();
    let ghost nv = names@.map_values(|s: &'static str| s@);
    let mut own: Option<String> = None;
    let mut i: usize = names.len();
    while i > 0
        invariant
            i <= names.len(),
            nv == names@.map_values(|s: &'static str| s@),
            opt_view(own) == first_var(env_view(*env), nv.skip(i as int)),
        decreases i,
    {
        i = i - 1;
        assert(nv.skip(i as int).drop_first() =~= nv.skip(i + 1));
        let v = env.get(names[i]);
        own = or_else_exec(v, own);
    }
    assert(nv.skip(0) =~= nv);
    let anthropic = if protocol == ApiProtocol::Anthropic {
        env.get("ANTHROPIC_API_KEY")
    } else {
        None
    };
    or_else_exec(env.get("RUSTCODE_API_KEY"),
    or_else_exec(env.get("API_KEY"),
    or_else_exec(own,
    or_else_exec(anthropic,
    or_else_exec(env.get("DEEPSEEK_API_KEY"),
    or_else_exec(env.get("OPENAI_API_KEY"),
    or_else_exec(env.get("DASHSCOPE_API_KEY"),
    or_else_exec(env.get("OPENROUTER_API_KEY"), fallback))))))))
}

/// One entry of a fallback chain.
#[derive(Debug)]
pub struct FallbackTarget {
    pub provider: ApiProvider,
    pub protocol: Option<ApiProtocol>,
    pub custom_provider_name: Option<String>,
    pub api_key: Option<String>,
    pub base_url: Option<String>,
    pub model: String,
}

/// The mathematical value of a fallback entry.
pub struct FallbackTargetView {
    pub provider: ApiProvider,
    pub protocol: Option<ApiProtocol>,
    pub custom_provider_name: Option<Seq<char>>,
    pub api_key: Option<Seq<char>>,
    pub base_url: Option<Seq<char>>,
    pub model: Seq<char>,
}

impl View for FallbackTarget {
    type V = FallbackTargetView;

    open spec fn view(&self) -> FallbackTargetView {
        FallbackTargetView {
            provider: self.provider,
            protocol: self.protocol,
            custom_provider_name: opt_view(self.custom_provider_name),
            api_key: opt_view(self.api_key),
            base_url: opt_view(self.base_url),
            model: self.model@,
        }
    }
}

impl Clone for FallbackTarget {
    fn clone(&self) -> (r: Self)
        ensures
            r@ == self@,
    {
        FallbackTarget {
            provider: self.provider,
            protocol: self.protocol,
            custom_provider_name: clone_opt(&self.custom_provider_name),
            api_key: clone_opt(&self.api_key),
            base_url: clone_opt(&self.base_url),
            model: self.model.clone(),
        }
    }
}

impl Default for FallbackTarget {
    fn default() -> (t: Self)
        ensures
            t@.provider == ApiProvider::DeepSeek,
            t@.protocol is None,
            t@.custom_provider_name is None,
            t@.api_key is None,
            t@.base_url is None,
            t@.model.len() == 0,
    {
        FallbackTarget {
            provider: ApiProvider::DeepSeek,
            protocol: None,
            custom_provider_name: None,
            api_key: None,
            base_url: None,
            model: String::new(),
        }
    }
}

/// The views of a fallback chain.
pub open spec fn chain_view(v: Seq<FallbackTarget>) -> Seq<FallbackTargetView> {
    v.map_values(|t: FallbackTarget| t@)
}

/// A copy of a fallback chain.
pub fn clone_chain(v: &Vec<FallbackTarget>) -> (r: Vec<FallbackTarget>)
    ensures
        chain_view(r@) == chain_view(v@),
{
    let mut r: Vec<FallbackTarget> = Vec::new();
    let mut i: usize = 0;
    while i < v.len()
        invariant
            i <= v.len(),
            chain_view(r@) == chain_view(v@.subrange(0, i as int)),
        decreases v.len() - i,
    {
        let c = v[i].clone();
        let ghost before = chain_view(r@);
        r.push(c);
        assert(chain_view(r@) =~= before.push(c@));
        i = i + 1;
        assert(chain_view(v@.subrange(0, i as int)) =~= chain_view(v@.subrange(0, i - 1)).push(
            v@[i - 1]@,
        ));
    }
    assert(v@.subrange(0, v.len() as int) =~= v@);
    r
}

/// A fully resolved request target.
#[derive(Debug)]
pub struct ResolvedApiTarget {
    pub provider: ApiProvider,
    pub protocol: ApiProtocol,
    pub provider_label: String,
    pub api_key: Option<String>,
    pub base_url: String,
    pub model: String,
}

/// The mathematical value of a resolved target.
pub struct ResolvedTargetView {
    pub provider: ApiProvider,
    pub protocol: ApiProtocol,
    pub provider_label: Seq<char>,
    pub api_key: Option<Seq<char>>,
    pub base_url: Seq<char>,
    pub model: Seq<char>,
}

impl View for ResolvedApiTarget {
    type V = ResolvedTargetView;

    open spec fn view(&self) -> ResolvedTargetView {
        ResolvedTargetView {
            provider: self.provider,
            protocol: self.protocol,
            provider_label: self.provider_label@,
            api_key: opt_view(self.api_key),
            base_url: self.base_url@,
            model: self.model@,
        }
    }
}

impl Clone for ResolvedApiTarget {
    fn clone(&self) -> (r: Self)
        ensures
            r@ == self@,
    {
        ResolvedApiTarget {
            provider: self.provider,
            protocol: self.protocol,
            provider_label: self.provider_label.clone(),
            api_key: clone_opt(&self.api_key),
            base_url: self.base_url.clone(),
            model: self.model.clone(),
        }
    }
}

impl ResolvedApiTarget {
    /// `label/model`.
    pub fn display_name(&self) -> (s: String)
        ensures
            s@ == self.provider_label@ + "/"@ + self.model@,
    {
        concat(concat(self.provider_label.as_str(), "/").as_str(), self.model.as_str())
    }
}

/// Whether and along which chain requests fall back to other targets.
#[derive(Debug)]
pub struct FallbackConfig {
    pub enabled: bool,
    pub chain: Vec<FallbackTarget>,
}

impl Clone for FallbackConfig {
    fn clone(&self) -> (r: Self)
        ensures
            r.enabled == self.enabled,
            chain_view(r.chain@) == chain_view(self.chain@),
    {
        FallbackConfig { enabled: self.enabled, chain: clone_chain(&self.chain) }
    }
}

impl Default for FallbackConfig {
    fn default() -> (c: Self)
        ensures
            !c.enabled,
            c.chain@.len() == 0,
    {
        FallbackConfig { enabled: false, chain: Vec::new() }
    }
}

/// Why a configuration change was refused.
#[derive(Debug, Clone, PartialEq, Eq)]
pub enum ApiConfigError {
    UnsupportedProvider(String),
    UnsupportedProtocol(String),
    UnsupportedFallbackProvider(String),
    MissingFallbackModel(String),
    InvalidFallbackJson(String),
}

/// The API part of the settings.
#[derive(Debug)]
pub struct ApiConfig {
    pub provider: ApiProvider,
    pub protocol: ApiProtocol,
    pub custom_provider_name: Option<String>,
    pub api_key: Option<String>,
    pub base_url: String,
    pub max_tokens: usize,
    pub timeout: u64,
    pub streaming: bool,
    pub beta_headers: Vec<String>,
    pub fallback: FallbackConfig,
}

impl Clone for ApiConfig {
    fn clone(&self) -> (r: Self)
        ensures
            r.provider == self.provider,
            r.protocol == self.protocol,
            opt_view(r.custom_provider_name) == opt_view(self.custom_provider_name),
            opt_view(r.api_key) == opt_view(self.api_key),
            r.base_url@ == self.base_url@,
            r.max_tokens == self.max_tokens,
            r.timeout == self.timeout,
            r.streaming == self.streaming,
            views(r.beta_headers@) == views(self.beta_headers@),
            r.fallback.enabled == self.fallback.enabled,
            chain_view(r.fallback.chain@) == chain_view(self.fallback.chain@),
    {
        ApiConfig {
            provider: self.provider,
            protocol: self.protocol,
            custom_provider_name: clone_opt(&self.custom_provider_name),
            api_key: clone_opt(&self.api_key),
            base_url: self.base_url.clone(),
            max_tokens: self.max_tokens,
            timeout: self.timeout,
            streaming: self.streaming,
            beta_headers: crate::permissions::clone_strings(&self.beta_headers),
            fallback: self.fallback.clone(),
        }
    }
}

/// The provider in effect: `RUSTCODE_API_PROVIDER` when it names one, else
/// the configured provider.
pub open spec fn effective_provider(c: ApiConfig, env: Seq<(Seq<char>, Seq<char>)>) -> ApiProvider {
    match env_get(env, "RUSTCODE_API_PROVIDER"@) {
        Some(v) => match provider_named(lower(trim(v))) {
            Some(p) => p,
            None => c.provider,
        },
        None => c.provider,
    }
}

/// The protocol in effect: `RUSTCODE_API_PROTOCOL` when it names one, else
/// the configured protocol for a custom provider and the preset's default
/// otherwise.
pub open spec fn effective_protocol(c: ApiConfig, env: Seq<(Seq<char>, Seq<char>)>) -> ApiProtocol {
    match env_get(env, "RUSTCODE_API_PROTOCOL"@) {
        Some(v) => match protocol_named(lower(trim(v))) {
            Some(p) => p,
            None => if effective_provider(c, env) == ApiProvider::Custom {
                c.protocol
            } else {
                provider_protocol(effective_provider(c, env))
            },
        },
        None => if effective_provider(c, env) == ApiProvider::Custom {
            c.protocol
        } else {
            provider_protocol(effective_provider(c, env))
        },
    }
}

/// The display label of a provider: a custom provider shows its non-blank
/// name (else `custom`), a preset its canonical name.
pub open spec fn label_spec(p: ApiProvider, custom_name: Option<Seq<char>>) -> Seq<char> {
    if p == ApiProvider::Custom {
        match non_blank(custom_name) {
            Some(n) => n,
            None => "custom"@,
        }
    } else {
        provider_name(p)
    }
}

/// The model identifier a configured model name resolves to for `p`: a
/// blank name is the preset's default, `chat`/`reasoner` (DeepSeek) and
/// `mini` (OpenAI) are short names; any other name, `opus`, `sonnet` and
/// `haiku` included, is used as written, trimmed.
pub open spec fn model_id_spec(p: ApiProvider, model: Seq<char>) -> Seq<char> {
    let t = trim(model);
    if t.len() == 0 {
        provider_model(p)
    } else if t == "chat"@ && p == ApiProvider::DeepSeek {
        "deepseek-chat"@
    } else if t == "reasoner"@ && p == ApiProvider::DeepSeek {
        "deepseek-reasoner"@
    } else if t == "mini"@ && p == ApiProvider::OpenAI {
        "gpt-4.1-mini"@
    } else {
        t
    }
}

/// The base URL in effect: `RUSTCODE_API_BASE_URL`, then `API_BASE_URL`,
/// then the configured URL unless blank, then the provider default.
pub open spec fn base_url_spec(c: ApiConfig, env: Seq<(Seq<char>, Seq<char>)>) -> Seq<char> {
    match or_else(env_get(env, "RUSTCODE_API_BASE_URL"@), env_get(env, "API_BASE_URL"@)) {
        Some(u) => u,
        None => if trim(c.base_url@).len() == 0 {
            provider_base_url(effective_provider(c, env))
        } else {
            c.base_url@
        },
    }
}

/// The primary target for `model`.
pub open spec fn active_target_spec(c: ApiConfig, env: Seq<(Seq<char>, Seq<char>)>, model: Seq<char>) -> ResolvedTargetView {
    let p = effective_provider(c, env);
    let proto = effective_protocol(c, env);
    ResolvedTargetView {
        provider: p,
        protocol: proto,
        provider_label: label_spec(p, opt_view(c.custom_provider_name)),
        api_key: resolve_key_spec(env, p, proto, opt_view(c.api_key)),
        base_url: base_url_spec(c, env),
        model: model_id_spec(p, model),
    }
}

/// The resolved form of fallback entry `t`.
pub open spec fn fallback_target_spec(c: ApiConfig, env: Seq<(Seq<char>, Seq<char>)>, t: FallbackTargetView) -> ResolvedTargetView {
    let proto = match t.protocol {
        Some(p) => p,
        None => if t.provider == ApiProvider::Custom {
            effective_protocol(c, env)
        } else {
            provider_protocol(t.provider)
        },
    };
    ResolvedTargetView {
        provider: t.provider,
        protocol: proto,
        provider_label: if t.provider == ApiProvider::Custom {
            match non_blank(or_else(t.custom_provider_name, opt_view(c.custom_provider_name))) {
                Some(n) => n,
                None => "custom"@,
            }
        } else {
            provider_name(t.provider)
        },
        api_key: resolve_key_spec(env, t.provider, proto, t.api_key),
        base_url: match non_blank(t.base_url) {
            Some(u) => u,
            None => provider_base_url(t.provider),
        },
        model: model_id_spec(effective_provider(c, env), t.model),
    }
}

/// The views of resolved targets.
pub open spec fn targets_view(v: Seq<ResolvedApiTarget>) -> Seq<ResolvedTargetView> {
    v.map_values(|t: ResolvedApiTarget| t@)
}

impl ApiConfig {
    /// The provider in effect.
    pub fn provider(&self, env: &EnvSnapshot) -> (p: ApiProvider)
        ensures
            p == effective_provider(*self, env_view(*env)),
    {
        match env.get("RUSTCODE_API_PROVIDER") {
            Some(v) => match ApiProvider::parse(v.as_str()) {
                Some(p) => p,
                None => self.provider,
            },
            None => self.provider,
        }
    }

    /// The protocol in effect.
    pub fn protocol(&self, env: &EnvSnapshot) -> (p: ApiProtocol)
        ensures
            p == effective_protocol(*self, env_view(*env)),
    {
        let from_env = match env.get("RUSTCODE_API_PROTOCOL") {
            Some(v) => ApiProtocol::parse(v.as_str()),
            None => None,
        };
        match from_env {
            Some(p) => p,
            None => if self.provider(env) == ApiProvider::Custom {
                self.protocol
            } else {
                self.provider(env).default_protocol()
            },
        }
    }

    /// The display label of the provider in effect.
    pub fn provider_label(&self, env: &EnvSnapshot) -> (s: String)
        ensures
            s@ == label_spec(effective_provider(*self, env_view(*env)), opt_view(self.custom_provider_name)),
    {
        let p = self.provider(env);
        if p == ApiProvider::Custom {
            match non_blank_exec(&self.custom_provider_name) {
                Some(n) => n,
                None => String::from_str("custom"),
            }
        } else {
            String::from_str(p.as_str())
        }
    }

    /// The default model of the provider in effect.
    pub fn default_model(&self, env: &EnvSnapshot) -> (s: &'static str)
        ensures
            s@ == provider_model(effective_provider(*self, env_view(*env))),
    {
        self.provider(env).default_model()
    }

    /// Selects the provider named by `value`, resetting the protocol and the
    /// base URL to its defaults; an unknown name changes nothing.
    pub fn set_provider(&mut self, value: &str) -> (r: Result<(), ApiConfigError>)
        ensures
            match provider_named(lower(trim(value@))) {
                Some(p) => r is Ok && final(self).base_url@ == provider_base_url(p) && *final(self)
                    == (ApiConfig {
                    provider: p,
                    protocol: provider_protocol(p),
                    base_url: final(self).base_url,
                    ..*old(self)
                }),
                None => r matches Err(ApiConfigError::UnsupportedProvider(v)) && v@ == value@
                    && *final(self) == *old(self),
            },
    {
        match ApiProvider::parse(value) {
            Some(p) => {
                self.provider = p;
                self.protocol = p.default_protocol();
                self.base_url = String::from_str(p.default_base_url());
                Ok(())
            },
            None => Err(ApiConfigError::UnsupportedProvider(String::from_str(value))),
        }
    }

    /// Selects the protocol named by `value`; an unknown name changes nothing.
    pub fn set_protocol(&mut self, value: &str) -> (r: Result<(), ApiConfigError>)
        ensures
            match protocol_named(lower(trim(value@))) {
                Some(p) => r is Ok && *final(self) == (ApiConfig { protocol: p, ..*old(self) }),
                None => r matches Err(ApiConfigError::UnsupportedProtocol(v)) && v@ == value@
                    && *final(self) == *old(self),
            },
    {
        match ApiProtocol::parse(value) {
            Some(p) => {
                self.protocol = p;
                Ok(())
            },
            None => Err(ApiConfigError::UnsupportedProtocol(String::from_str(value))),
        }
    }

    /// The API key in effect.
    pub fn get_api_key(&self, env: &EnvSnapshot) -> (r: Option<String>)
        ensures
            opt_view(r) == resolve_key_spec(
                env_view(*env),
                effective_provider(*self, env_view(*env)),
                effective_protocol(*self, env_view(*env)),
                opt_view(self.api_key),
            ),
    {
        resolve_api_key(env, self.provider(env), self.protocol(env), clone_opt(&self.api_key))
    }

    /// The base URL in effect.
    pub fn get_base_url(&self, env: &EnvSnapshot) -> (r: String)
        ensures
            r@ == base_url_spec(*self, env_view(*env)),
    {
        let from_env = or_else_exec(env.get("RUSTCODE_API_BASE_URL"), env.get("API_BASE_URL"));
        match from_env {
            Some(u) => u,
            None => if is_blank_str(self.base_url.as_str()) {
                String::from_str(self.provider(env).default_base_url())
            } else {
                self.base_url.clone()
            },
        }
    }

    /// The model identifier `model` resolves to.
    pub fn get_model_id(&self, env: &EnvSnapshot, model: &str) -> (r: String)
        ensures
            r@ == model_id_spec(effective_provider(*self, env_view(*env)), model@),
    {
        model_id_for(self.provider(env), model)
    }

    /// The primary request target for `configured_model`.
    pub fn active_target(&self, env: &EnvSnapshot, configured_model: &str) -> (t: ResolvedApiTarget)
        ensures
            t@ == active_target_spec(*self, env_view(*env), configured_model@),
    {
        let provider = self.provider(env);
        let protocol = self.protocol(env);
        let provider_label = self.provider_label(env);
        ResolvedApiTarget {
            provider,
            protocol,
            provider_label,
            api_key: resolve_api_key(env, provider, protocol, clone_opt(&self.api_key)),
            base_url: self.get_base_url(env),
            model: self.get_model_id(env, configured_model),
        }
    }

    /// The resolved fallback targets, in chain order; none while fallback is
    /// disabled.
    pub fn fallback_targets(&self, env: &EnvSnapshot) -> (r: Vec<ResolvedApiTarget>)
        ensures
            !self.fallback.enabled ==> r@.len() == 0,
            self.fallback.enabled ==> targets_view(r@) == chain_view(self.fallback.chain@).map_values(
                |t: FallbackTargetView| fallback_target_spec(*self, env_view(*env), t),
            ),
    {
        let mut out: Vec<ResolvedApiTarget> = Vec::new();
        if !self.fallback.enabled {
            return out;
        }
        let ghost cv = chain_view(self.fallback.chain@);
        let ghost f = |t: FallbackTargetView| fallback_target_spec(*self, env_view(*env), t);
        let mut i: usize = 0;
        while i < self.fallback.chain.len()
            invariant
                i <= self.fallback.chain.len(),
                cv == chain_view(self.fallback.chain@),
                f == (|t: FallbackTargetView| fallback_target_spec(*self, env_view(*env), t)),
                targets_view(out@) == cv.subrange(0, i as int).map_values(f),
            decreases self.fallback.chain.len() - i,
        {
            let target = &self.fallback.chain[i];
            let provider = target.provider;
            let protocol = match target.protocol {
                Some(p) => p,
                None => if provider == ApiProvider::Custom {
                    self.protocol(env)
                } else {
                    provider.default_protocol()
                },
            };
            let provider_label = if provider == ApiProvider::Custom {
                let name = match &target.custom_provider_name {
                    Some(n) => Some(n.clone()),
                    None => clone_opt(&self.custom_provider_name),
                };
                match non_blank_exec(&name) {
                    Some(n) => n,
                    None => String::from_str("custom"),
                }
            } else {
                String::from_str(provider.as_str())
            };
            let base_url = match non_blank_exec(&target.base_url) {
                Some(u) => u,
                None => String::from_str(provider.default_base_url()),
            };
            let resolved = ResolvedApiTarget {
                provider,
                protocol,
                provider_label,
                api_key: resolve_api_key(env, provider, protocol, clone_opt(&target.api_key)),
                base_url,
                model: self.get_model_id(env, target.model.as_str()),
            };
            let ghost before = targets_view(out@);
            out.push(resolved);
            assert(targets_view(out@) =~= before.push(resolved@));
            assert(resolved@ == f(cv[i as int]));
            i = i + 1;
            assert(cv.subrange(0, i as int).map_values(f) =~= cv.subrange(0, i - 1).map_values(
                f,
            ).push(f(cv[i - 1])));
        }
        assert(cv.subrange(0, self.fallback.chain.len() as int) =~= cv);
        out
    }
}

/// The model identifier `model` resolves to for provider `p`.
pub fn model_id_for(p: ApiProvider, model: &str) -> (r: String)
    ensures
        r@ == model_id_spec(p, model@),
{
    let t = trim_str(model);
    let v = chars_of(t.as_str());
    if v.len() == 0 {
        String::from_str(p.default_model())
    } else if vec_is(&v, "chat") && p == ApiProvider::DeepSeek {
        String::from_str("deepseek-chat")
    } else if vec_is(&v, "reasoner") && p == ApiProvider::DeepSeek {
        String::from_str("deepseek-reasoner")
    } else if vec_is(&v, "mini") && p == ApiProvider::OpenAI {
        String::from_str("gpt-4.1-mini")
    } else {
        t
    }
}

/// The mathematical value of a configuration error.
pub enum ConfigErrorView {
    UnsupportedProvider(Seq<char>),
    UnsupportedProtocol(Seq<char>),
    UnsupportedFallbackProvider(Seq<char>),
    MissingFallbackModel(Seq<char>),
    InvalidFallbackJson(Seq<char>),
}

impl View for ApiConfigError {
    type V = ConfigErrorView;

    open spec fn view(&self) -> ConfigErrorView {
        match self {
            ApiConfigError::UnsupportedProvider(s) => ConfigErrorView::UnsupportedProvider(s@),
            ApiConfigError::UnsupportedProtocol(s) => ConfigErrorView::UnsupportedProtocol(s@),
            ApiConfigError::UnsupportedFallbackProvider(s) => ConfigErrorView::UnsupportedFallbackProvider(s@),
            ApiConfigError::MissingFallbackModel(s) => ConfigErrorView::MissingFallbackModel(s@),
            ApiConfigError::InvalidFallbackJson(s) => ConfigErrorView::InvalidFallbackJson(s@),
        }
    }
}

/// The text shown to the user for a configuration error.
pub open spec fn error_text(e: ConfigErrorView) -> Seq<char> {
    match e {
        ConfigErrorView::UnsupportedProvider(v) => "Unsupported API provider: "@ + v,
        ConfigErrorView::UnsupportedProtocol(v) => "Unsupported API protocol: "@ + v,
        ConfigErrorView::UnsupportedFallbackProvider(v) => "Unsupported fallback provider entry: "@ + v,
        ConfigErrorView::MissingFallbackModel(v) => "Missing model for fallback entry: "@ + v,
        ConfigErrorView::InvalidFallbackJson(v) => "Invalid fallback chain JSON: "@ + v,
    }
}

impl ApiConfigError {
    /// The error text shown to the user.
    pub fn message(&self) -> (m: String)
        ensures
            m@ == error_text(self@),
    {
        match self {
            ApiConfigError::UnsupportedProvider(v) => concat("Unsupported API provider: ", v.as_str()),
            ApiConfigError::UnsupportedProtocol(v) => concat("Unsupported API protocol: ", v.as_str()),
            ApiConfigError::UnsupportedFallbackProvider(v) => concat(
                "Unsupported fallback provider entry: ",
                v.as_str(),
            ),
            ApiConfigError::MissingFallbackModel(v) => concat("Missing model for fallback entry: ", v.as_str()),
            ApiConfigError::InvalidFallbackJson(v) => concat("Invalid fallback chain JSON: ", v.as_str()),
        }
    }
}

/// The trimmed, non-empty comma-separated items of a list.
pub open spec fn csv_items(pieces: Seq<Seq<char>>) -> Seq<Seq<char>>
    decreases pieces.len(),
{
    if pieces.len() == 0 {
        Seq::empty()
    } else {
        let r = csv_items(pieces.drop_last());
        if trim(pieces.last()).len() == 0 {
            r
        } else {
            r.push(trim(pieces.last()))
        }
    }
}

/// The index of the first `c` in `s`.
pub open spec fn first_index(s: Seq<char>, c: char) -> Option<int>
    decreases s.len(),
{
    if s.len() == 0 {
        None
    } else if s[0] == c {
        Some(0)
    } else {
        match first_index(s.drop_first(), c) {
            Some(i) => Some(i + 1),
            None => None,
        }
    }
}

/// The fallback entry an item `provider:model` describes.
pub open spec fn csv_entry_spec(item: Seq<char>) -> Result<FallbackTargetView, ConfigErrorView> {
    let head = match first_index(item, ':') {
        Some(i) => item.subrange(0, i),
        None => item,
    };
    match provider_named(lower(trim(head))) {
        None => Err(ConfigErrorView::UnsupportedFallbackProvider(item)),
        Some(p) => match first_index(item, ':') {
            None => Err(ConfigErrorView::MissingFallbackModel(item)),
            Some(i) => Ok(FallbackTargetView {
                provider: p,
                protocol: None,
                custom_provider_name: None,
                api_key: None,
                base_url: None,
                model: trim(item.skip(i + 1)),
            }),
        },
    }
}

/// The fallback chain a list of items describes: the first bad item's error,
/// or every entry in order.
pub open spec fn csv_chain_spec(items: Seq<Seq<char>>) -> Result<Seq<FallbackTargetView>, ConfigErrorView>
    decreases items.len(),
{
    if items.len() == 0 {
        Ok(Seq::empty())
    } else {
        match csv_chain_spec(items.drop_last()) {
            Err(e) => Err(e),
            Ok(c) => match csv_entry_spec(items.last()) {
                Err(e) => Err(e),
                Ok(t) => Ok(c.push(t)),
            },
        }
    }
}

/// The view of a chain parse result.
pub open spec fn chain_result_view(r: Result<Vec<FallbackTarget>, ApiConfigError>) -> Result<Seq<FallbackTargetView>, ConfigErrorView> {
    match r {
        Ok(v) => Ok(chain_view(v@)),
        Err(e) => Err(e@),
    }
}

pub(crate) fn first_index_exec(v: &Vec<char>, c: char) -> (r: Option<usize>)
    ensures
        match r {
            Some(i) => first_index(v@, c) == Some(i as int) && i < v@.len() && v@[i as int] == c,
            None => first_index(v@, c) is None,
        },
{
    let mut i: usize = 0;
    while i < v.len()
        invariant
            i <= v.len(),
            forall|j: int| 0 <= j < i ==> v@[j] != c,
        decreases v.len() - i,
    {
        if v[i] == c {
            proof {
                lemma_first_index_at(v@, c, i as int);
            }
            return Some(i);
        }
        i = i + 1;
    }
    proof {
        lemma_first_index_none(v@, c);
    }
    None
}

proof fn lemma_first_index_at(s: Seq<char>, c: char, i: int)
    requires
        0 <= i < s.len(),
        s[i] == c,
        forall|j: int| 0 <= j < i ==> s[j] != c,
    ensures
        first_index(s, c) == Some(i),
    decreases i,
{
    if i > 0 {
        lemma_first_index_at(s.drop_first(), c, i - 1);
    }
}

proof fn lemma_first_index_none(s: Seq<char>, c: char)
    requires
        forall|j: int| 0 <= j < s.len() ==> s[j] != c,
    ensures
        first_index(s, c) is None,
    decreases s.len(),
{
    if s.len() > 0 {
        lemma_first_index_none(s.drop_first(), c);
    }
}

/// The fallback entry an item `provider:model` describes.
pub fn parse_fallback_entry(item: &str) -> (r: Result<FallbackTarget, ApiConfigError>)
    ensures
        match r {
            Ok(t) => csv_entry_spec(item@) == Ok::<FallbackTargetView, ConfigErrorView>(t@),
            Err(e) => csv_entry_spec(item@) == Err::<FallbackTargetView, ConfigErrorView>(e@),
        },
{
    let v = chars_of(item);
    let colon = first_index_exec(&v, ':');
    let head = match colon {
        Some(i) => string_of_range(&v, 0, i),
        None => string_of(&v),
    };
    match ApiProvider::parse(head.as_str()) {
        None => Err(ApiConfigError::UnsupportedFallbackProvider(String::from_str(item))),
        Some(p) => match colon {
            None => Err(ApiConfigError::MissingFallbackModel(String::from_str(item))),
            Some(i) => {
                let rest = string_of_range(&v, i + 1, v.len());
                assert(rest@ =~= item@.skip(i + 1));
                let model = trim_str(rest.as_str());
                Ok(FallbackTarget {
                    provider: p,
                    protocol: None,
                    custom_provider_name: None,
                    api_key: None,
                    base_url: None,
                    model,
                })
            },
        },
    }
}

/// The fallback chain a comma-separated `provider:model` list describes;
/// blank items are skipped.
pub fn parse_fallback_csv(value: &str) -> (r: Result<Vec<FallbackTarget>, ApiConfigError>)
    ensures
        chain_result_view(r) == csv_chain_spec(csv_items(split(value@, ','))),
{
    let pieces = crate::text::split_char(value, ',');
    let ghost pv = views(pieces@);
    let mut chain: Vec<FallbackTarget> = Vec::new();
    let mut i: usize = 0;
    assert(csv_items(pv.subrange(0, 0)) =~= Seq::<Seq<char>>::empty());
    assert(chain_view(chain@) =~= Seq::<FallbackTargetView>::empty());
    while i < pieces.len()
        invariant
            i <= pieces.len(),
            pv == views(pieces@),
            pv == split(value@, ','),
            csv_chain_spec(csv_items(pv.subrange(0, i as int))) == Ok::<
                Seq<FallbackTargetView>,
                ConfigErrorView,
            >(chain_view(chain@)),
        decreases pieces.len() - i,
    {
        assert(pv.subrange(0, i + 1).drop_last() =~= pv.subrange(0, i as int));
        let item = trim_str(pieces[i].as_str());
        if !item.as_str().is_empty() {
            match parse_fallback_entry(item.as_str()) {
                Err(e) => {
                    proof {
                        let pre = pv.subrange(0, i + 1);
                        let items = csv_items(pv.subrange(0, i as int));
                        assert(pre.last() == pv[i as int]);
                        assert(csv_items(pre) == items.push(item@));
                        assert(items.push(item@).drop_last() =~= items);
                        assert(items.push(item@).last() == item@);
                        lemma_csv_error_persists(pv, i as int + 1);
                    }
                    return Err(e);
                },
                Ok(t) => {
                    let ghost before = chain_view(chain@);
                    chain.push(t);
                    assert(chain_view(chain@) =~= before.push(t@));
                    proof {
                        let pre = pv.subrange(0, i + 1);
                        let items = csv_items(pv.subrange(0, i as int));
                        assert(pre.last() == pv[i as int]);
                        assert(csv_items(pre) == items.push(item@));
                        assert(items.push(item@).drop_last() =~= items);
                    }
                },
            }
        }
        i = i + 1;
    }
    assert(pv.subrange(0, pieces.len() as int) =~= pv);
    Ok(chain)
}

proof fn lemma_csv_error_persists(pv: Seq<Seq<char>>, k: int)
    requires
        0 <= k <= pv.len(),
        csv_chain_spec(csv_items(pv.subrange(0, k))) is Err,
    ensures
        csv_chain_spec(csv_items(pv)) == csv_chain_spec(csv_items(pv.subrange(0, k))),
    decreases pv.len() - k,
{
    if k < pv.len() {
        let pre = pv.subrange(0, k + 1);
        assert(pre.drop_last() =~= pv.subrange(0, k));
        let items = csv_items(pv.subrange(0, k));
        if trim(pre.last()).len() > 0 {
            assert(csv_items(pre) == items.push(trim(pre.last())));
            assert(items.push(trim(pre.last())).drop_last() =~= items);
        }
        lemma_csv_error_persists(pv, k + 1);
    } else {
        assert(pv.subrange(0, k) =~= pv);
    }
}

/// How `set_fallback_chain_from_str` changes the configuration `c` into
/// `n`, returning `r`: blank text clears the chain, text starting with `[`
/// takes the JSON list parsed by the caller, anything else the
/// `provider:model` list; on error the chain stays; nothing else changes.
pub open spec fn fallback_chain_set(
    c: ApiConfig,
    value: Seq<char>,
    json_chain: Option<Result<Vec<FallbackTarget>, String>>,
    n: ApiConfig,
    r: Result<(), ApiConfigError>,
) -> bool {
    &&& ({
        let t = trim(value);
        if t.len() == 0 {
            r is Ok && n.fallback.chain@.len() == 0
        } else if has_prefix(t, "["@) {
            match json_chain {
                Some(Ok(ch)) => r is Ok && chain_view(n.fallback.chain@) == chain_view(ch@),
                Some(Err(m)) => r matches Err(ApiConfigError::InvalidFallbackJson(x)) && x@ == m@
                    && n.fallback.chain == c.fallback.chain,
                None => r matches Err(ApiConfigError::InvalidFallbackJson(x)) && x@ == t
                    && n.fallback.chain == c.fallback.chain,
            }
        } else {
            match csv_chain_spec(csv_items(split(t, ','))) {
                Ok(ch) => r is Ok && chain_view(n.fallback.chain@) == ch,
                Err(e) => r matches Err(x) && x@ == e && n.fallback.chain == c.fallback.chain,
            }
        }
    })
    &&& n.fallback.enabled == c.fallback.enabled
    &&& n == (ApiConfig { fallback: n.fallback, ..c })
}

impl ApiConfig {
    /// Replaces the fallback chain from its textual form: blank text clears
    /// it, text starting with `[` is a JSON list (parsed by the caller and
    /// handed in as `json_chain`), anything else a `provider:model` list. On
    /// error the chain is left as it was.
    pub fn set_fallback_chain_from_str(&mut self, value: &str, json_chain: Option<Result<Vec<FallbackTarget>, String>>) -> (r: Result<(), ApiConfigError>)
        ensures
            fallback_chain_set(*old(self), value@, json_chain, *final(self), r),
    {
        let t = trim_str(value);
        if t.as_str().is_empty() {
            self.fallback.chain = Vec::new();
            return Ok(());
        }
        if starts_with_str(t.as_str(), "[") {
            return match json_chain {
                Some(Ok(c)) => {
                    self.fallback.chain = c;
                    Ok(())
                },
                Some(Err(m)) => Err(ApiConfigError::InvalidFallbackJson(m)),
                None => Err(ApiConfigError::InvalidFallbackJson(t)),
            };
        }
        match parse_fallback_csv(t.as_str()) {
            Ok(c) => {
                self.fallback.chain = c;
                Ok(())
            },
            Err(e) => Err(e),
        }
    }

    /// The configuration defaults, as overridden by the environment.
    pub fn from_env(env: &EnvSnapshot) -> (c: Self)
        ensures
            config_from_env(env_view(*env), c),
    {
        let provider = match env.get("RUSTCODE_API_PROVIDER") {
            Some(v) => match ApiProvider::parse(v.as_str()) {
                Some(p) => p,
                None => ApiProvider::DeepSeek,
            },
            None => ApiProvider::DeepSeek,
        };
        let protocol = match env.get("RUSTCODE_API_PROTOCOL") {
            Some(v) => match ApiProtocol::parse(v.as_str()) {
                Some(p) => p,
                None => provider.default_protocol(),
            },
            None => provider.default_protocol(),
        };
        let base_url = match or_else_exec(env.get("RUSTCODE_API_BASE_URL"), env.get("API_BASE_URL")) {
            Some(u) => u,
            None => String::from_str(provider.default_base_url()),
        };
        ApiConfig {
            provider,
            protocol,
            custom_provider_name: None,
            api_key: resolve_api_key(env, provider, provider.default_protocol(), None),
            base_url,
            max_tokens: 4096,
            timeout: 120,
            streaming: true,
            beta_headers: Vec::new(),
            fallback: FallbackConfig { enabled: false, chain: Vec::new() },
        }
    }
}

/// The configuration that the environment `env` selects on top of the
/// defaults.
pub open spec fn config_from_env(env: Seq<(Seq<char>, Seq<char>)>, c: ApiConfig) -> bool {
    &&& c.provider == env_provider(env)
    &&& c.protocol == match env_get(env, "RUSTCODE_API_PROTOCOL"@) {
        Some(v) => match protocol_named(lower(trim(v))) {
            Some(p) => p,
            None => provider_protocol(env_provider(env)),
        },
        None => provider_protocol(env_provider(env)),
    }
    &&& c.custom_provider_name is None
    &&& opt_view(c.api_key) == resolve_key_spec(env, env_provider(env), provider_protocol(env_provider(env)), None)
    &&& c.base_url@ == match or_else(
        env_get(env, "RUSTCODE_API_BASE_URL"@),
        env_get(env, "API_BASE_URL"@),
    ) {
        Some(u) => u,
        None => provider_base_url(env_provider(env)),
    }
    &&& c.max_tokens == 4096
    &&& c.timeout == 120
    &&& c.streaming
    &&& c.beta_headers@.len() == 0
    &&& !c.fallback.enabled
    &&& c.fallback.chain@.len() == 0
}

/// The provider `RUSTCODE_API_PROVIDER` selects, DeepSeek otherwise.
pub open spec fn env_provider(env: Seq<(Seq<char>, Seq<char>)>) -> ApiProvider {
    match env_get(env, "RUSTCODE_API_PROVIDER"@) {
        Some(v) => match provider_named(lower(trim(v))) {
            Some(p) => p,
            None => ApiProvider::DeepSeek,
        },
        None => ApiProvider::DeepSeek,
    }
}

impl Default for ApiConfig {
    /// The defaults of an environment that sets none of the recognised
    /// variables.
    fn default() -> (c: Self)
        ensures
            c.provider == ApiProvider::DeepSeek,
            c.protocol == ApiProtocol::OpenAi,
            c.custom_provider_name is None,
            c.api_key is None,
            c.base_url@ == provider_base_url(ApiProvider::DeepSeek),
            c.max_tokens == 4096,
            c.timeout == 120,
            c.streaming,
            c.beta_headers@.len() == 0,
            !c.fallback.enabled,
            c.fallback.chain@.len() == 0,
    {
        let e = EnvSnapshot::empty();
        proof {
            lemma_first_var_empty_env(env_view(e), provider_key_vars(ApiProvider::DeepSeek));
        }
        ApiConfig::from_env(&e)
    }
}

proof fn lemma_first_var_empty_env(env: Seq<(Seq<char>, Seq<char>)>, names: Seq<Seq<char>>)
    requires
        env.len() == 0,
    ensures
        first_var(env, names) is None,
    decreases names.len(),
{
    if names.len() > 0 {
        lemma_first_var_empty_env(env, names.drop_first());
    }
}

/// The family prefix a provider's short model names stand under.
pub open spec fn short_name_family(p: ApiProvider) -> Seq<char> {
    match p {
        ApiProvider::DeepSeek => "deepseek-"@,
        ApiProvider::OpenAI => "gpt-4.1-"@,
        _ => Seq::empty(),
    }
}

/// A configured model name resolves to an identifier that ends with the
/// name itself: the name as written (trimmed), or the name under the
/// provider's family prefix (`deepseek-` for DeepSeek's `chat` and
/// `reasoner`, `gpt-4.1-` for OpenAI's `mini`); so different names never
/// resolve to the same short-name identifier. A blank name resolves to the
/// preset's default model.
pub proof fn law_model_id_keeps_the_name(p: ApiProvider, m: Seq<char>)
    ensures
        trim(m).len() == 0 ==> model_id_spec(p, m) == provider_model(p),
        trim(m).len() > 0 ==> crate::text::has_suffix(model_id_spec(p, m), trim(m)),
        trim(m).len() > 0 ==> (model_id_spec(p, m) == trim(m) || model_id_spec(p, m) == short_name_family(p)
            + trim(m)),
{
    reveal_strlit("chat");
    reveal_strlit("reasoner");
    reveal_strlit("mini");
    reveal_strlit("deepseek-chat");
    reveal_strlit("deepseek-reasoner");
    reveal_strlit("gpt-4.1-mini");
    reveal_strlit("deepseek-");
    reveal_strlit("gpt-4.1-");
    let t = trim(m);
    let r = model_id_spec(p, m);
    if t.len() > 0 {
        if t == "chat"@ && p == ApiProvider::DeepSeek {
            assert(r =~= short_name_family(p) + t);
        } else if t == "reasoner"@ && p == ApiProvider::DeepSeek {
            assert(r =~= short_name_family(p) + t);
        } else if t == "mini"@ && p == ApiProvider::OpenAI {
            assert(r =~= short_name_family(p) + t);
        } else {
            assert(r == t);
        }
        let f = short_name_family(p);
        if r == f + t {
            assert(r.subrange(r.len() - t.len(), r.len() as int) =~= t);
        } else {
            assert(r.subrange(r.len() - t.len(), r.len() as int) =~= t);
        }
    }
}

/// Canonical provider and protocol names are lower-case ASCII words.
pub proof fn lemma_names_plain(p: ApiProvider, q: ApiProtocol)
    ensures
        provider_name(p).len() > 0,
        protocol_name(q).len() > 0,
        forall|i: int| 0 <= i < provider_name(p).len() ==> 'a' <= #[trigger] provider_name(p)[i] <= 'z',
        forall|i: int| 0 <= i < protocol_name(q).len() ==> ('a' <= #[trigger] protocol_name(q)[i] <= 'z'),
{
    reveal_strlit("deepseek");
    reveal_strlit("openai");
    reveal_strlit("anthropic");
    reveal_strlit("xai");
    reveal_strlit("gemini");
    reveal_strlit("dashscope");
    reveal_strlit("openrouter");
    reveal_strlit("ollama");
    reveal_strlit("custom");
    reveal_strlit("responses");
}

/// A provider's name parses back to it in any ASCII case and with any
/// blank padding on either side; so does a protocol's.
pub proof fn law_names_parse_back_padded(
    p: ApiProvider,
    q: ApiProtocol,
    s: Seq<char>,
    t: Seq<char>,
    left: Seq<char>,
    right: Seq<char>,
)
    requires
        lower(s) == provider_name(p),
        lower(t) == protocol_name(q),
        crate::text::is_blank(left),
        crate::text::is_blank(right),
    ensures
        provider_named(lower(trim(left + s + right))) == Some(p),
        protocol_named(lower(trim(left + t + right))) == Some(q),
{
    lemma_names_plain(p, q);
    law_names_parse_back(p, q);
    crate::text::lemma_plain_key(provider_name(p));
    crate::text::lemma_plain_key(protocol_name(q));
    assert(s.len() == provider_name(p).len());
    assert(t.len() == protocol_name(q).len());
    assert(lower(s)[0] == crate::text::lower_char(s[0]));
    assert(lower(s)[s.len() - 1] == crate::text::lower_char(s.last()));
    assert(lower(t)[0] == crate::text::lower_char(t[0]));
    assert(lower(t)[t.len() - 1] == crate::text::lower_char(t.last()));
    crate::text::lemma_trim_padded(left, s, right);
    crate::text::lemma_trim_padded(left, t, right);
}

/// Every provider's and protocol's canonical name parses back to it.
pub proof fn law_names_parse_back(p: ApiProvider, q: ApiProtocol)
    ensures
        provider_named(lower(trim(provider_name(p)))) == Some(p),
        protocol_named(lower(trim(protocol_name(q)))) == Some(q),
{
    reveal_strlit("deepseek");
    reveal_strlit("openai");
    reveal_strlit("dashscope");
    reveal_strlit("qwen");
    reveal_strlit("openrouter");
    reveal_strlit("ollama");
    reveal_strlit("custom");
    reveal_strlit("open_ai");
    reveal_strlit("anthropic");
    reveal_strlit("xai");
    reveal_strlit("gemini");
    reveal_strlit("responses");
    crate::text::lemma_plain_key(provider_name(p));
    crate::text::lemma_plain_key(protocol_name(q));
    assert("ollama"@[1] != "openai"@[1]);
    assert("custom"@[0] != "openai"@[0] && "custom"@[0] != "ollama"@[0]);
    assert("openrouter"@.len() != "dashscope"@.len());
    assert("anthropic"@[0] != "openai"@[0]);
    assert("responses"@[0] != "openai"@[0] && "responses"@[0] != "anthropic"@[0]);
}

} // verus!
