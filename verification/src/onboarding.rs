//! The draft edited by the first-run onboarding flows: taken from the
//! settings, changed step by step, summarised, and written back.

use vstd::prelude::*;
use crate::api_config::{
    ApiProtocol, ApiProvider, EnvSnapshot, FallbackTarget, FallbackTargetView, chain_view,
    clone_chain, effective_protocol, effective_provider, env_get, env_view, provider_base_url,
    provider_model, provider_name, provider_protocol,
};
use crate::numbers::decimal;
use crate::settings::Settings;
use crate::text::{clone_opt, concat, is_blank_str, opt_view, trim, trim_str};

verus! {

/// The provider, endpoint, model and fallbacks being chosen.
#[derive(Debug)]
pub struct OnboardingDraft {
    pub provider: ApiProvider,
    pub protocol: ApiProtocol,
    pub custom_provider_name: Option<String>,
    pub api_key: Option<String>,
    pub base_url: String,
    pub model: String,
    pub fallback_enabled: bool,
    pub fallback_chain: Vec<FallbackTarget>,
}

/// The mathematical value of a draft.
pub struct DraftView {
    pub provider: ApiProvider,
    pub protocol: ApiProtocol,
    pub custom_provider_name: Option<Seq<char>>,
    pub api_key: Option<Seq<char>>,
    pub base_url: Seq<char>,
    pub model: Seq<char>,
    pub fallback_enabled: bool,
    pub fallback_chain: Seq<FallbackTargetView>,
}

impl View for OnboardingDraft {
    type V = DraftView;

    open spec fn view(&self) -> DraftView {
        DraftView {
            provider: self.provider,
            protocol: self.protocol,
            custom_provider_name: opt_view(self.custom_provider_name),
            api_key: opt_view(self.api_key),
            base_url: self.base_url@,
            model: self.model@,
            fallback_enabled: self.fallback_enabled,
            fallback_chain: chain_view(self.fallback_chain@),
        }
    }
}

impl Clone for OnboardingDraft {
    fn clone(&self) -> (r: Self)
        ensures
            r@ == self@,
    {
        OnboardingDraft {
            provider: self.provider,
            protocol: self.protocol,
            custom_provider_name: clone_opt(&self.custom_provider_name),
            api_key: clone_opt(&self.api_key),
            base_url: self.base_url.clone(),
            model: self.model.clone(),
            fallback_enabled: self.fallback_enabled,
            fallback_chain: clone_chain(&self.fallback_chain),
        }
    }
}

/// The label of a provider: a custom provider's non-blank name (else
/// `custom`), the preset's name otherwise.
pub open spec fn draft_label(p: ApiProvider, custom: Option<Seq<char>>) -> Seq<char> {
    if p == ApiProvider::Custom {
        match custom {
            Some(n) => if trim(n).len() > 0 {
                n
            } else {
                "custom"@
            },
            None => "custom"@,
        }
    } else {
        provider_name(p)
    }
}

fn label_exec(p: ApiProvider, custom: &Option<String>) -> (s: String)
    ensures
        s@ == draft_label(p, opt_view(*custom)),
{
    if p == ApiProvider::Custom {
        match custom {
            Some(n) => if is_blank_str(n.as_str()) {
                String::from_str("custom")
            } else {
                n.clone()
            },
            None => String::from_str("custom"),
        }
    } else {
        String::from_str(p.as_str())
    }
}

/// The trimmed text, or `fallback` when it is blank.
pub open spec fn non_empty_or(value: Seq<char>, fallback: Seq<char>) -> Seq<char> {
    if trim(value).len() == 0 {
        fallback
    } else {
        trim(value)
    }
}

/// The trimmed text, or nothing when it is blank.
pub open spec fn optional_text(value: Seq<char>) -> Option<Seq<char>> {
    if trim(value).len() == 0 {
        None
    } else {
        Some(trim(value))
    }
}

/// The trimmed text, or `fallback` when it is blank.
pub fn normalize_non_empty(value: String, fallback: String) -> (r: String)
    ensures
        r@ == non_empty_or(value@, fallback@),
{
    let t = trim_str(value.as_str());
    if t.as_str().unicode_len() == 0 {
        fallback
    } else {
        t
    }
}

/// The trimmed text, or nothing when it is blank.
pub fn normalize_optional(value: String) -> (r: Option<String>)
    ensures
        opt_view(r) == optional_text(value@),
{
    let t = trim_str(value.as_str());
    if t.as_str().unicode_len() == 0 {
        None
    } else {
        Some(t)
    }
}

/// The fallback entry onboarding adds for a provider: its default model;
/// a custom one also gets the OpenAI protocol, the name `custom` and the
/// default endpoint.
pub open spec fn new_fallback_spec(p: ApiProvider) -> FallbackTargetView {
    if p == ApiProvider::Custom {
        FallbackTargetView {
            provider: p,
            protocol: Some(ApiProtocol::OpenAi),
            custom_provider_name: Some("custom"@),
            api_key: None,
            base_url: Some(provider_base_url(p)),
            model: provider_model(p),
        }
    } else {
        FallbackTargetView {
            provider: p,
            protocol: None,
            custom_provider_name: None,
            api_key: None,
            base_url: None,
            model: provider_model(p),
        }
    }
}

/// The fallback entry a finished fallback draft describes.
pub open spec fn fallback_of_draft(d: DraftView) -> FallbackTargetView {
    FallbackTargetView {
        provider: d.provider,
        protocol: if d.provider == ApiProvider::Custom {
            Some(d.protocol)
        } else {
            None
        },
        custom_provider_name: d.custom_provider_name,
        api_key: d.api_key,
        base_url: if trim(d.base_url) == provider_base_url(d.provider) {
            None
        } else {
            Some(d.base_url)
        },
        model: d.model,
    }
}

/// The label of a fallback entry: `label/model`.
pub open spec fn fallback_label_spec(t: FallbackTargetView) -> Seq<char> {
    draft_label(t.provider, t.custom_provider_name) + "/"@ + t.model
}

/// The lines that list the fallback entries, numbered from `from + 1`.
pub open spec fn fallback_lines(chain: Seq<FallbackTargetView>, from: nat) -> Seq<Seq<char>>
    decreases chain.len(),
{
    if chain.len() == 0 {
        Seq::empty()
    } else {
        fallback_lines(chain.drop_last(), from).push(
            "  "@ + decimal(from + chain.len()) + ". "@ + fallback_label_spec(chain.last()),
        )
    }
}

/// The summary of a draft, line by line.
pub open spec fn summary_spec(d: DraftView) -> Seq<Seq<char>> {
    let head = seq![
        "Primary: "@ + draft_label(d.provider, d.custom_provider_name) + "/"@ + d.model,
        "Base URL: "@ + d.base_url,
        "API key: "@ + match d.api_key {
            Some(k) => if trim(k).len() > 0 {
                "saved"@
            } else {
                "empty or env-managed"@
            },
            None => "empty or env-managed"@,
        },
    ];
    if d.fallback_enabled && d.fallback_chain.len() > 0 {
        head.push("Fallbacks:"@) + fallback_lines(d.fallback_chain, 0)
    } else {
        head.push("Fallbacks: disabled"@)
    }
}

/// The API part of settings `s` once draft `d` is written into them.
pub open spec fn applied_spec(s: Settings, d: OnboardingDraft, n: Settings) -> bool {
    let enabled = d.fallback_enabled && d.fallback_chain@.len() > 0;
    &&& n.api.provider == d.provider
    &&& n.api.protocol == if d.provider == ApiProvider::Custom {
        d.protocol
    } else {
        provider_protocol(d.provider)
    }
    &&& opt_view(n.api.custom_provider_name) == opt_view(d.custom_provider_name)
    &&& opt_view(n.api.api_key) == opt_view(d.api_key)
    &&& n.api.base_url@ == d.base_url@
    &&& n.model@ == d.model@
    &&& n.api.fallback.enabled == enabled
    &&& chain_view(n.api.fallback.chain@) == if enabled {
        chain_view(d.fallback_chain@)
    } else {
        Seq::empty()
    }
    &&& n.api.max_tokens == s.api.max_tokens && n.api.timeout == s.api.timeout
    &&& n.api.streaming == s.api.streaming && n.api.beta_headers == s.api.beta_headers
    &&& n == (Settings { api: n.api, model: n.model, ..s })
}

impl OnboardingDraft {
    /// The draft of the settings in effect under `env`.
    pub fn from_settings(settings: &Settings, env: &EnvSnapshot) -> (d: Self)
        ensures
            d@.provider == effective_provider(settings.api, env_view(*env)),
            d@.protocol == effective_protocol(settings.api, env_view(*env)),
            d@.custom_provider_name == opt_view(settings.api.custom_provider_name),
            d@.api_key == opt_view(settings.api.api_key),
            d@.base_url == settings.api.base_url@,
            d@.model == settings.model@,
            d@.fallback_enabled == settings.api.fallback.enabled,
            d@.fallback_chain == chain_view(settings.api.fallback.chain@),
    {
        OnboardingDraft {
            provider: settings.api.provider(env),
            protocol: settings.api.protocol(env),
            custom_provider_name: clone_opt(&settings.api.custom_provider_name),
            api_key: clone_opt(&settings.api.api_key),
            base_url: settings.api.base_url.clone(),
            model: settings.model.clone(),
            fallback_enabled: settings.api.fallback.enabled,
            fallback_chain: clone_chain(&settings.api.fallback.chain),
        }
    }

    /// The label of the chosen provider.
    pub fn provider_label(&self) -> (s: String)
        ensures
            s@ == draft_label(self.provider, opt_view(self.custom_provider_name)),
    {
        label_exec(self.provider, &self.custom_provider_name)
    }

    /// Switches to `provider`. A different provider brings its default
    /// endpoint and model and drops the API key; a preset also brings its
    /// protocol and drops the custom name, while a custom provider gets the
    /// name `custom` if it has none.
    pub fn prepare_for_provider_change(&mut self, provider: ApiProvider)
        ensures
            final(self)@.provider == provider,
            old(self).provider != provider ==> final(self)@.base_url == provider_base_url(provider)
                && final(self)@.model == provider_model(provider) && final(self)@.api_key is None,
            old(self).provider == provider ==> final(self)@.base_url == old(self)@.base_url
                && final(self)@.model == old(self)@.model && final(self)@.api_key == old(self)@.api_key,
            provider == ApiProvider::Custom ==> final(self)@.protocol == old(self)@.protocol
                && final(self)@.custom_provider_name == match old(self)@.custom_provider_name {
                Some(n) => Some(n),
                None => Some("custom"@),
            },
            provider != ApiProvider::Custom ==> final(self)@.protocol == provider_protocol(provider)
                && final(self)@.custom_provider_name is None,
            final(self)@.fallback_enabled == old(self)@.fallback_enabled,
            final(self)@.fallback_chain == old(self)@.fallback_chain,
    {
        let previous = self.provider;
        self.provider = provider;
        if previous != provider {
            self.base_url = String::from_str(provider.default_base_url());
            self.model = String::from_str(provider.default_model());
            self.api_key = None;
        }
        if provider == ApiProvider::Custom {
            if self.custom_provider_name.is_none() {
                self.custom_provider_name = Some(String::from_str("custom"));
            }
        } else {
            self.protocol = provider.default_protocol();
            self.custom_provider_name = None;
        }
    }

    /// Chooses the protocol.
    pub fn set_protocol(&mut self, protocol: ApiProtocol)
        ensures
            final(self)@ == (DraftView { protocol, ..old(self)@ }),
    {
        self.protocol = protocol;
    }

    /// Chooses the model; a blank one means the provider's default.
    pub fn set_model(&mut self, model: String)
        ensures
            final(self)@ == (DraftView { model: non_empty_or(model@, provider_model(old(self).provider)), ..old(self)@ }),
    {
        self.model = normalize_non_empty(model, String::from_str(self.provider.default_model()));
    }

    /// Chooses the endpoint; a blank one means the provider's default.
    pub fn set_base_url(&mut self, base_url: String)
        ensures
            final(self)@ == (DraftView {
                base_url: non_empty_or(base_url@, provider_base_url(old(self).provider)),
                ..old(self)@
            }),
    {
        self.base_url = normalize_non_empty(base_url, String::from_str(self.provider.default_base_url()));
    }

    /// Names the custom provider; a blank name clears it.
    pub fn set_custom_provider_name(&mut self, value: String)
        ensures
            final(self)@ == (DraftView { custom_provider_name: optional_text(value@), ..old(self)@ }),
    {
        self.custom_provider_name = normalize_optional(value);
    }

    /// Sets the API key; a blank one clears it.
    pub fn set_api_key(&mut self, value: Option<String>)
        ensures
            final(self)@ == (DraftView {
                api_key: match opt_view(value) {
                    Some(v) => optional_text(v),
                    None => None,
                },
                ..old(self)@
            }),
    {
        self.api_key = match value {
            Some(v) => normalize_optional(v),
            None => None,
        };
    }

    /// Turns fallbacks on or off; turning them off empties the chain.
    pub fn set_fallback_enabled(&mut self, enabled: bool)
        ensures
            final(self)@ == (DraftView {
                fallback_enabled: enabled,
                fallback_chain: if enabled {
                    old(self)@.fallback_chain
                } else {
                    Seq::empty()
                },
                ..old(self)@
            }),
    {
        self.fallback_enabled = enabled;
        if !enabled {
            self.fallback_chain.clear();
        }
        assert(!enabled ==> chain_view(self.fallback_chain@) =~= Seq::<FallbackTargetView>::empty());
    }

    /// The fallback entry a provider starts with: its default model; a
    /// custom one also gets the OpenAI protocol, the name `custom` and the
    /// default endpoint.
    pub fn fallback_defaults(provider: ApiProvider) -> (t: FallbackTarget)
        ensures
            t@ == new_fallback_spec(provider),
    {
        let mut target = FallbackTarget {
            provider,
            protocol: None,
            custom_provider_name: None,
            api_key: None,
            base_url: None,
            model: String::from_str(provider.default_model()),
        };
        if provider == ApiProvider::Custom {
            target.protocol = Some(ApiProtocol::OpenAi);
            target.custom_provider_name = Some(String::from_str("custom"));
            target.base_url = Some(String::from_str(provider.default_base_url()));
        }
        target
    }

    /// Appends a fallback entry for `provider`, turning fallbacks on;
    /// returns its index.
    pub fn add_fallback_target(&mut self, provider: ApiProvider) -> (i: usize)
        requires
            old(self).fallback_chain@.len() < usize::MAX,
        ensures
            i == old(self).fallback_chain@.len(),
            final(self)@ == (DraftView {
                fallback_enabled: true,
                fallback_chain: old(self)@.fallback_chain.push(new_fallback_spec(provider)),
                ..old(self)@
            }),
    {
        let target = Self::fallback_defaults(provider);
        let ghost before = chain_view(self.fallback_chain@);
        let ghost tv = target@;
        self.fallback_enabled = true;
        self.fallback_chain.push(target);
        assert(chain_view(self.fallback_chain@) =~= before.push(tv));
        self.fallback_chain.len() - 1
    }

    /// The draft a new fallback entry starts from: the provider's
    /// protocol (OpenAI for a custom one), endpoint and model, no name, no
    /// key and no fallbacks of its own.
    pub fn for_fallback_provider(provider: ApiProvider) -> (d: Self)
        ensures
            d@ == (DraftView {
                provider,
                protocol: provider_protocol(provider),
                custom_provider_name: None,
                api_key: None,
                base_url: provider_base_url(provider),
                model: provider_model(provider),
                fallback_enabled: false,
                fallback_chain: Seq::empty(),
            }),
    {
        let d = OnboardingDraft {
            provider,
            protocol: provider.default_protocol(),
            custom_provider_name: None,
            api_key: None,
            base_url: String::from_str(provider.default_base_url()),
            model: String::from_str(provider.default_model()),
            fallback_enabled: false,
            fallback_chain: Vec::new(),
        };
        assert(chain_view(d.fallback_chain@) =~= Seq::<FallbackTargetView>::empty());
        d
    }

    /// The fallback entry a finished fallback draft describes: the
    /// protocol is kept only for a custom provider, and the base URL only
    /// when, trimmed, it differs from the provider's default.
    pub fn to_fallback_target(&self) -> (t: FallbackTarget)
        ensures
            t@ == fallback_of_draft(self@),
    {
        let keep_url = {
            let trimmed = trim_str(self.base_url.as_str());
            !crate::text::str_eq(trimmed.as_str(), self.provider.default_base_url())
        };
        FallbackTarget {
            provider: self.provider,
            protocol: if self.provider == ApiProvider::Custom {
                Some(self.protocol)
            } else {
                None
            },
            custom_provider_name: clone_opt(&self.custom_provider_name),
            api_key: clone_opt(&self.api_key),
            base_url: if keep_url {
                Some(self.base_url.clone())
            } else {
                None
            },
            model: self.model.clone(),
        }
    }

    /// The label of a fallback entry: `label/model`.
    pub fn fallback_target_label(target: &FallbackTarget) -> (s: String)
        ensures
            s@ == fallback_label_spec(target@),
    {
        let label = label_exec(target.provider, &target.custom_provider_name);
        let mut out = concat(label.as_str(), "/");
        out.append(target.model.as_str());
        out
    }

    /// The summary shown before the draft is saved, line by line.
    pub fn summary_lines(&self) -> (lines: Vec<String>)
        ensures
            crate::text::views(lines@) == summary_spec(self@),
    {
        let mut lines: Vec<String> = Vec::new();
        let mut primary = concat("Primary: ", self.provider_label().as_str());
        primary.append("/");
        primary.append(self.model.as_str());
        lines.push(primary);
        lines.push(concat("Base URL: ", self.base_url.as_str()));
        let saved = match &self.api_key {
            Some(k) => !is_blank_str(k.as_str()),
            None => false,
        };
        lines.push(concat("API key: ", if saved { "saved" } else { "empty or env-managed" }));
        let ghost head = crate::text::views(lines@);
        assert(head =~= seq![
            "Primary: "@ + draft_label(self.provider, opt_view(self.custom_provider_name)) + "/"@ + self.model@,
            "Base URL: "@ + self.base_url@,
            "API key: "@ + match opt_view(self.api_key) {
                Some(k) => if trim(k).len() > 0 {
                    "saved"@
                } else {
                    "empty or env-managed"@
                },
                None => "empty or env-managed"@,
            },
        ]);
        if self.fallback_enabled && self.fallback_chain.len() > 0 {
            lines.push(String::from_str("Fallbacks:"));
            let ghost start = crate::text::views(lines@);
            let ghost cv = chain_view(self.fallback_chain@);
            let mut i: usize = 0;
            while i < self.fallback_chain.len()
                invariant
                    i <= self.fallback_chain.len(),
                    cv == chain_view(self.fallback_chain@),
                    crate::text::views(lines@) == start + fallback_lines(cv.subrange(0, i as int), 0),
                decreases self.fallback_chain.len() - i,
            {
                let ghost before = crate::text::views(lines@);
                let ghost pre = cv.subrange(0, i + 1);
                assert(pre.drop_last() =~= cv.subrange(0, i as int));
                assert(pre.last() == self.fallback_chain@[i as int]@);
                let mut line = concat("  ", crate::numbers::usize_to_string(i + 1).as_str());
                line.append(". ");
                line.append(OnboardingDraft::fallback_target_label(&self.fallback_chain[i]).as_str());
                lines.push(line);
                assert(crate::text::views(lines@) =~= before.push(line@));
                i = i + 1;
            }
            assert(cv.subrange(0, self.fallback_chain.len() as int) =~= cv);
        } else {
            lines.push(String::from_str("Fallbacks: disabled"));
        }
        lines
    }

    /// Writes the draft into `settings`: provider, protocol (a preset's
    /// own), custom name, key, endpoint and model; fallbacks stay on only
    /// with a non-empty chain.
    pub fn apply_to_settings(&self, settings: &mut Settings)
        ensures
            applied_spec(*old(settings), *self, *final(settings)),
    {
        settings.api.provider = self.provider;
        settings.api.protocol = if self.provider == ApiProvider::Custom {
            self.protocol
        } else {
            self.provider.default_protocol()
        };
        settings.api.custom_provider_name = clone_opt(&self.custom_provider_name);
        settings.api.api_key = clone_opt(&self.api_key);
        settings.api.base_url = self.base_url.clone();
        settings.model = self.model.clone();
        settings.api.fallback.enabled = self.fallback_enabled && self.fallback_chain.len() > 0;
        settings.api.fallback.chain = if settings.api.fallback.enabled {
            clone_chain(&self.fallback_chain)
        } else {
            Vec::new()
        };
        assert(!settings.api.fallback.enabled ==> chain_view(settings.api.fallback.chain@) =~= Seq::<
            FallbackTargetView,
        >::empty());
    }
}

/// A draft the onboarding can produce: a preset provider speaks its own
/// protocol, and fallbacks are on exactly when there are some.
pub open spec fn consistent_draft(d: DraftView) -> bool {
    &&& d.provider != ApiProvider::Custom ==> d.protocol == provider_protocol(d.provider)
    &&& d.fallback_enabled == (d.fallback_chain.len() > 0)
}

/// What the onboarding writes is what it reads back: in an environment
/// that overrides neither provider nor protocol, the draft taken from
/// settings into which a consistent draft was written is that draft.
pub proof fn law_onboarding_round_trip(
    s: Settings,
    d: OnboardingDraft,
    n: Settings,
    env: Seq<(Seq<char>, Seq<char>)>,
)
    requires
        consistent_draft(d@),
        applied_spec(s, d, n),
        env_get(env, "RUSTCODE_API_PROVIDER"@) is None,
        env_get(env, "RUSTCODE_API_PROTOCOL"@) is None,
    ensures
        effective_provider(n.api, env) == d@.provider,
        effective_protocol(n.api, env) == d@.protocol,
        opt_view(n.api.custom_provider_name) == d@.custom_provider_name,
        opt_view(n.api.api_key) == d@.api_key,
        n.api.base_url@ == d@.base_url,
        n.model@ == d@.model,
        n.api.fallback.enabled == d@.fallback_enabled,
        chain_view(n.api.fallback.chain@) == d@.fallback_chain,
{
    if !d.fallback_enabled {
        assert(d@.fallback_chain =~= Seq::<FallbackTargetView>::empty());
    }
}

} // verus!
