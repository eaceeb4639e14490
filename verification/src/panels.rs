//! The state behind the desktop onboarding and settings panels, and what
//! each user action does to it. Drawing the panels is the window
//! toolkit's business; every change the user makes arrives here as an
//! event.

use vstd::prelude::*;
use crate::api_config::{
    chain_view, effective_protocol, effective_provider, env_view, fallback_chain_set,
    protocol_name, protocol_named, provider_base_url, provider_model, provider_name,
    provider_named, provider_protocol, ApiConfig, ApiConfigError, ApiProtocol, ApiProvider, EnvSnapshot,
    FallbackConfig, FallbackTarget, FallbackTargetView,
};
use crate::onboarding::{new_fallback_spec, DraftView, OnboardingDraft};
use crate::settings::Settings;
use crate::text::{lower, opt_view, trim, trim_str};

verus! {

/// What the user did in the onboarding panel.
#[derive(Debug)]
pub enum OnboardingEvent {
    PrimaryProvider(ApiProvider),
    PrimaryProtocol(ApiProtocol),
    PrimaryCustomName(String),
    PrimaryBaseUrl(String),
    PrimaryModel(String),
    PrimaryApiKey(String),
    TogglePrimaryKey,
    FallbackEnabled(bool),
    AddFallback,
    SelectFallback(usize),
    RemoveFallback(usize),
    FallbackProvider(ApiProvider),
    FallbackProtocol(ApiProtocol),
    FallbackCustomName(String),
    FallbackBaseUrl(String),
    FallbackModel(String),
    FallbackApiKey(String),
    ToggleFallbackKey,
}

/// The onboarding panel: the draft being edited, the fallback entry
/// selected for editing, and whether each API key is shown.
pub struct OnboardingPanel {
    draft: OnboardingDraft,
    selected_fallback: usize,
    show_primary_api_key: bool,
    show_fallback_api_key: bool,
}

/// The mathematical value of an onboarding panel.
pub struct PanelView {
    pub draft: DraftView,
    pub selected: usize,
    pub show_primary_key: bool,
    pub show_fallback_key: bool,
}

impl View for OnboardingPanel {
    type V = PanelView;

    closed spec fn view(&self) -> PanelView {
        PanelView {
            draft: self.draft@,
            selected: self.selected_fallback,
            show_primary_key: self.show_primary_api_key,
            show_fallback_key: self.show_fallback_api_key,
        }
    }
}

/// The selection names an entry of the chain, or the chain is empty and
/// the selection is the first place.
pub open spec fn selection_valid(v: PanelView) -> bool {
    v.selected < v.draft.fallback_chain.len() || (v.draft.fallback_chain.len() == 0 && v.selected
        == 0)
}

/// An event the panel can take: a selected or removed entry exists, and
/// an added one fits.
pub open spec fn event_allowed(v: PanelView, e: OnboardingEvent) -> bool {
    match e {
        OnboardingEvent::AddFallback => v.draft.fallback_chain.len() < usize::MAX,
        OnboardingEvent::SelectFallback(i) => i < v.draft.fallback_chain.len(),
        OnboardingEvent::RemoveFallback(i) => i < v.draft.fallback_chain.len(),
        _ => true,
    }
}

/// The selected entry with a change applied, when one is selected.
pub open spec fn edit_selected(v: PanelView, t: FallbackTargetView) -> PanelView {
    if v.selected < v.draft.fallback_chain.len() {
        PanelView {
            draft: DraftView {
                fallback_chain: v.draft.fallback_chain.update(v.selected as int, t),
                ..v.draft
            },
            ..v
        }
    } else {
        v
    }
}

/// The entry being edited.
pub open spec fn selected_target(v: PanelView) -> FallbackTargetView {
    v.draft.fallback_chain[v.selected as int]
}

/// What an event does. Choosing another primary provider applies that
/// provider's protocol rule (a preset gets its protocol and loses the
/// custom name, a custom one gets the name `custom` if it has none), and
/// keeps the endpoint, model and key; text fields take the text as
/// typed. Adding a fallback appends the new provider's defaults, turns
/// fallbacks on and selects it; removing one keeps the selection in the
/// chain and turns fallbacks off once the chain is empty; choosing
/// another provider for the selected entry resets it to that provider's
/// defaults.
pub open spec fn panel_step(v: PanelView, e: OnboardingEvent) -> PanelView {
    let d = v.draft;
    match e {
        OnboardingEvent::PrimaryProvider(p) => if p == d.provider {
            v
        } else {
            PanelView {
                draft: DraftView {
                    provider: p,
                    protocol: if p == ApiProvider::Custom {
                        d.protocol
                    } else {
                        provider_protocol(p)
                    },
                    custom_provider_name: if p == ApiProvider::Custom {
                        match d.custom_provider_name {
                            Some(n) => Some(n),
                            None => Some("custom"@),
                        }
                    } else {
                        None
                    },
                    ..d
                },
                ..v
            }
        },
        OnboardingEvent::PrimaryProtocol(p) => PanelView { draft: DraftView { protocol: p, ..d }, ..v },
        OnboardingEvent::PrimaryCustomName(s) => PanelView {
            draft: DraftView { custom_provider_name: Some(s@), ..d },
            ..v
        },
        OnboardingEvent::PrimaryBaseUrl(s) => PanelView { draft: DraftView { base_url: s@, ..d }, ..v },
        OnboardingEvent::PrimaryModel(s) => PanelView { draft: DraftView { model: s@, ..d }, ..v },
        OnboardingEvent::PrimaryApiKey(s) => PanelView { draft: DraftView { api_key: Some(s@), ..d }, ..v },
        OnboardingEvent::TogglePrimaryKey => PanelView { show_primary_key: !v.show_primary_key, ..v },
        OnboardingEvent::FallbackEnabled(b) => PanelView { draft: DraftView { fallback_enabled: b, ..d }, ..v },
        OnboardingEvent::AddFallback => PanelView {
            draft: DraftView {
                fallback_enabled: true,
                fallback_chain: d.fallback_chain.push(new_fallback_spec(ApiProvider::OpenAI)),
                ..d
            },
            selected: d.fallback_chain.len() as usize,
            ..v
        },
        OnboardingEvent::SelectFallback(i) => PanelView { selected: i, ..v },
        OnboardingEvent::RemoveFallback(i) => {
            let chain = d.fallback_chain.remove(i as int);
            PanelView {
                draft: DraftView {
                    fallback_chain: chain,
                    fallback_enabled: if chain.len() == 0 {
                        false
                    } else {
                        d.fallback_enabled
                    },
                    ..d
                },
                selected: if v.selected >= chain.len() {
                    if chain.len() == 0 {
                        0
                    } else {
                        (chain.len() - 1) as usize
                    }
                } else {
                    v.selected
                },
                ..v
            }
        },
        OnboardingEvent::FallbackProvider(p) => if v.selected < d.fallback_chain.len()
            && selected_target(v).provider != p {
            edit_selected(v, new_fallback_spec(p))
        } else {
            v
        },
        OnboardingEvent::FallbackProtocol(p) => edit_selected(
            v,
            FallbackTargetView { protocol: Some(p), ..selected_target(v) },
        ),
        OnboardingEvent::FallbackCustomName(s) => edit_selected(
            v,
            FallbackTargetView { custom_provider_name: Some(s@), ..selected_target(v) },
        ),
        OnboardingEvent::FallbackBaseUrl(s) => edit_selected(
            v,
            FallbackTargetView { base_url: Some(s@), ..selected_target(v) },
        ),
        OnboardingEvent::FallbackModel(s) => edit_selected(
            v,
            FallbackTargetView { model: s@, ..selected_target(v) },
        ),
        OnboardingEvent::FallbackApiKey(s) => edit_selected(
            v,
            FallbackTargetView { api_key: Some(s@), ..selected_target(v) },
        ),
        OnboardingEvent::ToggleFallbackKey => PanelView { show_fallback_key: !v.show_fallback_key, ..v },
    }
}

/// Every action keeps the selection on an entry of the chain (or on the
/// first place of an empty chain), and removing the last entry turns
/// fallbacks off.
pub proof fn law_selection_stays_in_chain(v: PanelView, e: OnboardingEvent)
    requires
        selection_valid(v),
        event_allowed(v, e),
    ensures
        selection_valid(panel_step(v, e)),
        e is RemoveFallback && panel_step(v, e).draft.fallback_chain.len() == 0 ==> !panel_step(
            v,
            e,
        ).draft.fallback_enabled,
{
}

impl OnboardingPanel {
    /// The panel over the settings in effect under `env`, the first
    /// fallback selected and both keys hidden.
    pub fn from_settings(settings: &Settings, env: &EnvSnapshot) -> (p: Self)
        ensures
            p@.draft.provider == crate::api_config::effective_provider(
                settings.api,
                crate::api_config::env_view(*env),
            ),
            p@.draft.model == settings.model@,
            p@.draft.fallback_chain == chain_view(settings.api.fallback.chain@),
            p@.selected == 0,
            !p@.show_primary_key && !p@.show_fallback_key,
            selection_valid(p@),
    {
        OnboardingPanel {
            draft: OnboardingDraft::from_settings(settings, env),
            selected_fallback: 0,
            show_primary_api_key: false,
            show_fallback_api_key: false,
        }
    }

    /// The draft being edited.
    pub fn draft(&self) -> (d: &OnboardingDraft)
        ensures
            d@ == self@.draft,
    {
        &self.draft
    }

    /// The position of the fallback entry being edited.
    pub fn selected_fallback(&self) -> (i: usize)
        ensures
            i == self@.selected,
    {
        self.selected_fallback
    }

    /// Whether the primary and the fallback API keys are shown.
    pub fn keys_shown(&self) -> (r: (bool, bool))
        ensures
            r == (self@.show_primary_key, self@.show_fallback_key),
    {
        (self.show_primary_api_key, self.show_fallback_api_key)
    }

    /// The draft being edited, as a value.
    pub closed spec fn draft_spec(&self) -> OnboardingDraft {
        self.draft
    }

    /// Writes the draft into `settings`.
    pub fn apply_to_settings(&self, settings: &mut Settings)
        ensures
            crate::onboarding::applied_spec(*old(settings), self.draft_spec(), *final(settings)),
            self.draft_spec()@ == self@.draft,
    {
        self.draft.apply_to_settings(settings);
    }

    fn edit_target(&mut self, t: FallbackTarget)
        ensures
            final(self)@ == edit_selected(old(self)@, t@),
    {
        if self.selected_fallback < self.draft.fallback_chain.len() {
            let ghost before = chain_view(self.draft.fallback_chain@);
            self.draft.fallback_chain.set(self.selected_fallback, t);
            assert(chain_view(self.draft.fallback_chain@) =~= before.update(
                self.selected_fallback as int,
                t@,
            ));
        }
    }

    fn selected_clone(&self) -> (t: FallbackTarget)
        requires
            self@.selected < self@.draft.fallback_chain.len(),
        ensures
            t@ == selected_target(self@),
    {
        self.draft.fallback_chain[self.selected_fallback].clone()
    }

    /// Takes in one user action.
    pub fn handle(&mut self, e: OnboardingEvent)
        requires
            event_allowed(old(self)@, e),
        ensures
            final(self)@ == panel_step(old(self)@, e),
    {
        match e {
            OnboardingEvent::PrimaryProvider(_) | OnboardingEvent::PrimaryProtocol(_)
            | OnboardingEvent::PrimaryCustomName(_) | OnboardingEvent::PrimaryBaseUrl(_)
            | OnboardingEvent::PrimaryModel(_) | OnboardingEvent::PrimaryApiKey(_)
            | OnboardingEvent::TogglePrimaryKey => self.handle_primary(e),
            OnboardingEvent::FallbackEnabled(_) | OnboardingEvent::AddFallback
            | OnboardingEvent::SelectFallback(_) | OnboardingEvent::RemoveFallback(_) => self.handle_chain(e),
            _ => self.handle_entry(e),
        }
    }

    fn handle_primary(&mut self, e: OnboardingEvent)
        requires
            e is PrimaryProvider || e is PrimaryProtocol || e is PrimaryCustomName || e is PrimaryBaseUrl
                || e is PrimaryModel || e is PrimaryApiKey || e is TogglePrimaryKey,
        ensures
            final(self)@ == panel_step(old(self)@, e),
    {
        proof {
            reveal_strlit("custom");
        }
        match e {
            OnboardingEvent::PrimaryProvider(p) => {
                if p != self.draft.provider {
                    self.draft.provider = p;
                    self.draft.prepare_for_provider_change(p);
                }
            },
            OnboardingEvent::PrimaryProtocol(p) => {
                self.draft.protocol = p;
            },
            OnboardingEvent::PrimaryCustomName(s) => {
                self.draft.custom_provider_name = Some(s);
            },
            OnboardingEvent::PrimaryBaseUrl(s) => {
                self.draft.base_url = s;
            },
            OnboardingEvent::PrimaryModel(s) => {
                self.draft.model = s;
            },
            OnboardingEvent::PrimaryApiKey(s) => {
                self.draft.api_key = Some(s);
            },
            _ => {
                self.show_primary_api_key = !self.show_primary_api_key;
            },
        }
    }

    fn handle_chain(&mut self, e: OnboardingEvent)
        requires
            e is FallbackEnabled || e is AddFallback || e is SelectFallback || e is RemoveFallback,
            event_allowed(old(self)@, e),
        ensures
            final(self)@ == panel_step(old(self)@, e),
    {
        match e {
            OnboardingEvent::FallbackEnabled(b) => {
                self.draft.fallback_enabled = b;
            },
            OnboardingEvent::AddFallback => {
                let i = self.draft.add_fallback_target(ApiProvider::OpenAI);
                self.selected_fallback = i;
            },
            OnboardingEvent::SelectFallback(i) => {
                self.selected_fallback = i;
            },
            OnboardingEvent::RemoveFallback(i) => {
                let ghost before = chain_view(self.draft.fallback_chain@);
                self.draft.fallback_chain.remove(i);
                assert(chain_view(self.draft.fallback_chain@) =~= before.remove(i as int));
                let n = self.draft.fallback_chain.len();
                if self.selected_fallback >= n {
                    self.selected_fallback = if n == 0 {
                        0
                    } else {
                        n - 1
                    };
                }
                if n == 0 {
                    self.draft.fallback_enabled = false;
                }
            },
            _ => {},
        }
    }

    fn handle_entry(&mut self, e: OnboardingEvent)
        requires
            e is FallbackProvider || e is FallbackProtocol || e is FallbackCustomName || e is FallbackBaseUrl
                || e is FallbackModel || e is FallbackApiKey || e is ToggleFallbackKey,
        ensures
            final(self)@ == panel_step(old(self)@, e),
    {
        if let OnboardingEvent::ToggleFallbackKey = e {
            self.show_fallback_api_key = !self.show_fallback_api_key;
            return;
        }
        if self.selected_fallback >= self.draft.fallback_chain.len() {
            return;
        }
        match e {
            OnboardingEvent::FallbackProvider(p) => {
                if self.draft.fallback_chain[self.selected_fallback].provider != p {
                    let t = OnboardingDraft::fallback_defaults(p);
                    self.edit_target(t);
                }
            },
            OnboardingEvent::FallbackProtocol(p) => {
                let mut t = self.selected_clone();
                t.protocol = Some(p);
                self.edit_target(t);
            },
            OnboardingEvent::FallbackCustomName(s) => {
                let mut t = self.selected_clone();
                t.custom_provider_name = Some(s);
                self.edit_target(t);
            },
            OnboardingEvent::FallbackBaseUrl(s) => {
                let mut t = self.selected_clone();
                t.base_url = Some(s);
                self.edit_target(t);
            },
            OnboardingEvent::FallbackModel(s) => {
                let mut t = self.selected_clone();
                t.model = s;
                self.edit_target(t);
            },
            OnboardingEvent::FallbackApiKey(s) => {
                let mut t = self.selected_clone();
                t.api_key = Some(s);
                self.edit_target(t);
            },
            _ => {},
        }
    }
}

/// The sections of the settings panel.
#[derive(Debug, Clone, Copy, PartialEq, Eq, Structural)]
pub enum SettingsSection {
    General,
    Api,
    Appearance,
    Plugins,
    Advanced,
}

/// The settings panel: the section shown, the API fields as typed, the
/// fallback chain as text, the theme `T` and the general preferences.
pub struct SettingsPanel<T> {
    pub current_section: SettingsSection,
    pub provider: String,
    pub protocol: String,
    pub custom_provider_name: String,
    pub api_key: String,
    pub base_url: String,
    pub model: String,
    pub fallback_enabled: bool,
    pub fallback_chain: String,
    pub theme: T,
    pub language: String,
    pub auto_save: bool,
    pub notifications: bool,
    pub telemetry: bool,
    pub show_api_key: bool,
}

/// A typed text, trimmed, or `d` when it is blank.
pub open spec fn trimmed_or(s: Seq<char>, d: Seq<char>) -> Seq<char> {
    if trim(s).len() == 0 {
        d
    } else {
        trim(s)
    }
}

/// A typed text, trimmed, or nothing when it is blank.
pub open spec fn trimmed_opt(s: Seq<char>) -> Option<Seq<char>> {
    if trim(s).len() == 0 {
        None
    } else {
        Some(trim(s))
    }
}

fn trimmed_opt_exec(s: &String) -> (r: Option<String>)
    ensures
        opt_view(r) == trimmed_opt(s@),
{
    let t = trim_str(s.as_str());
    if t.as_str().is_empty() {
        None
    } else {
        Some(t)
    }
}

fn trimmed_or_exec(s: &String, d: &str) -> (r: String)
    ensures
        r@ == trimmed_or(s@, d@),
{
    let t = trim_str(s.as_str());
    if t.as_str().is_empty() {
        String::from_str(d)
    } else {
        t
    }
}

impl<T> SettingsPanel<T> {
    /// The panel's defaults, with theme `theme`: the General section, the
    /// DeepSeek preset, fallbacks off with `openai:gpt-4.1-mini` typed in,
    /// English, auto-save and notifications on, telemetry off, the key
    /// hidden.
    pub fn with_theme(theme: T) -> (p: Self)
        ensures
            p.current_section == SettingsSection::General,
            p.provider@ == "deepseek"@,
            p.protocol@ == "openai"@,
            p.custom_provider_name@ == Seq::<char>::empty(),
            p.api_key@ == Seq::<char>::empty(),
            p.base_url@ == "https://api.deepseek.com"@,
            p.model@ == "deepseek-chat"@,
            !p.fallback_enabled,
            p.fallback_chain@ == "openai:gpt-4.1-mini"@,
            p.theme == theme,
            p.language@ == "en"@,
            p.auto_save && p.notifications && !p.telemetry && !p.show_api_key,
    {
        SettingsPanel {
            current_section: SettingsSection::General,
            provider: String::from_str("deepseek"),
            protocol: String::from_str("openai"),
            custom_provider_name: String::new(),
            api_key: String::new(),
            base_url: String::from_str("https://api.deepseek.com"),
            model: String::from_str("deepseek-chat"),
            fallback_enabled: false,
            fallback_chain: String::from_str("openai:gpt-4.1-mini"),
            theme,
            language: String::from_str("en"),
            auto_save: true,
            notifications: true,
            telemetry: false,
            show_api_key: false,
        }
    }

    /// The panel over the settings in effect under `env`: the provider's
    /// and protocol's names, the custom name, key, endpoint and model as
    /// text, and the fallback chain as `chain_json` (its JSON text, made by
    /// the caller) unless the chain is empty; the rest as the defaults.
    pub fn from_settings(settings: &Settings, env: &EnvSnapshot, theme: T, chain_json: String) -> (p: Self)
        ensures
            p.current_section == SettingsSection::General,
            p.provider@ == provider_name(effective_provider(settings.api, env_view(*env))),
            p.protocol@ == protocol_name(effective_protocol(settings.api, env_view(*env))),
            p.custom_provider_name@ == match opt_view(settings.api.custom_provider_name) {
                Some(n) => n,
                None => Seq::<char>::empty(),
            },
            p.api_key@ == match opt_view(settings.api.api_key) {
                Some(k) => k,
                None => Seq::<char>::empty(),
            },
            p.base_url@ == settings.api.base_url@,
            p.model@ == settings.model@,
            p.fallback_enabled == settings.api.fallback.enabled,
            p.fallback_chain@ == if settings.api.fallback.chain@.len() == 0 {
                Seq::<char>::empty()
            } else {
                chain_json@
            },
            p.theme == theme,
            p.language@ == "en"@,
            p.auto_save && p.notifications && !p.telemetry && !p.show_api_key,
    {
        let mut p = Self::with_theme(theme);
        p.provider = String::from_str(settings.api.provider(env).as_str());
        p.protocol = String::from_str(settings.api.protocol(env).as_str());
        p.custom_provider_name = match &settings.api.custom_provider_name {
            Some(n) => n.clone(),
            None => String::new(),
        };
        p.api_key = match &settings.api.api_key {
            Some(k) => k.clone(),
            None => String::new(),
        };
        p.base_url = settings.api.base_url.clone();
        p.model = settings.model.clone();
        p.fallback_enabled = settings.api.fallback.enabled;
        p.fallback_chain = if settings.api.fallback.chain.len() == 0 {
            String::new()
        } else {
            chain_json
        };
        p
    }

    /// Fills in the chosen provider's endpoint and model (and, for a
    /// preset, its protocol, clearing the custom name); an unknown
    /// provider name changes nothing.
    pub fn apply_provider_defaults(&mut self)
        ensures
            match provider_named(lower(trim(old(self).provider@))) {
                Some(p) => {
                    &&& final(self).base_url@ == provider_base_url(p)
                    &&& final(self).model@ == provider_model(p)
                    &&& if p == ApiProvider::Custom {
                        final(self).protocol@ == old(self).protocol@
                            && final(self).custom_provider_name@ == old(self).custom_provider_name@
                    } else {
                        final(self).protocol@ == protocol_name(provider_protocol(p)) && final(self).custom_provider_name@
                            == Seq::<char>::empty()
                    }
                },
                None => {
                    &&& final(self).base_url@ == old(self).base_url@
                    &&& final(self).model@ == old(self).model@
                    &&& final(self).protocol@ == old(self).protocol@
                    &&& final(self).custom_provider_name@ == old(self).custom_provider_name@
                },
            },
            final(self).provider@ == old(self).provider@,
            final(self).api_key@ == old(self).api_key@,
            final(self).fallback_chain@ == old(self).fallback_chain@,
            final(self).fallback_enabled == old(self).fallback_enabled,
            final(self).theme == old(self).theme,
    {
        proof {
            reveal_strlit("openai");
        }
        match ApiProvider::parse(self.provider.as_str()) {
            Some(p) => {
                self.base_url = String::from_str(p.default_base_url());
                self.model = String::from_str(p.default_model());
                if p != ApiProvider::Custom {
                    self.protocol = String::from_str(p.default_protocol().as_str());
                    self.custom_provider_name = String::new();
                }
            },
            None => {},
        }
    }

    /// The provider picked from the list: a different one brings its
    /// defaults (see `apply_provider_defaults`).
    pub fn choose_provider(&mut self, name: String)
        ensures
            final(self).provider@ == name@,
            name@ == old(self).provider@ ==> final(self).base_url@ == old(self).base_url@
                && final(self).model@ == old(self).model@ && final(self).protocol@ == old(self).protocol@,
            name@ != old(self).provider@ ==> match provider_named(lower(trim(name@))) {
                Some(p) => final(self).base_url@ == provider_base_url(p) && final(self).model@
                    == provider_model(p),
                None => final(self).base_url@ == old(self).base_url@ && final(self).model@
                    == old(self).model@,
            },
    {
        if !crate::text::str_eq(name.as_str(), self.provider.as_str()) {
            self.provider = name;
            self.apply_provider_defaults();
        }
    }

    /// Whether the protocol can be chosen: only for a custom provider.
    pub fn protocol_editable(&self) -> (b: bool)
        ensures
            b == (self.provider@ == "custom"@),
    {
        crate::text::str_eq(self.provider.as_str(), "custom")
    }

    /// Writes the typed values into `settings`: the provider (and, for a
    /// custom one, the protocol) by name, then the custom name and key
    /// (trimmed; blank means none), the endpoint and model (trimmed; blank
    /// means the provider's default), the fallback switch, and the
    /// fallback chain from its text (`json_chain` is the caller's parse of
    /// JSON text). An unknown provider or protocol name is an error and
    /// stops there.
    pub fn apply_to_settings(
        &self,
        settings: &mut Settings,
        env: &EnvSnapshot,
        json_chain: Option<Result<Vec<FallbackTarget>, String>>,
    ) -> (r: Result<(), ApiConfigError>)
        ensures
            match provider_named(lower(trim(self.provider@))) {
                None => r matches Err(ApiConfigError::UnsupportedProvider(v)) && v@ == self.provider@
                    && *final(settings) == *old(settings),
                Some(pv) => if pv == ApiProvider::Custom && protocol_named(lower(trim(self.protocol@))) is None {
                    &&& r matches Err(ApiConfigError::UnsupportedProtocol(v)) && v@ == self.protocol@
                    &&& final(settings).api.provider == pv
                    &&& final(settings).api.protocol == ApiProtocol::OpenAi
                    &&& final(settings).api.base_url@ == provider_base_url(pv)
                    &&& *final(settings) == (Settings {
                        api: ApiConfig {
                            provider: pv,
                            protocol: ApiProtocol::OpenAi,
                            base_url: final(settings).api.base_url,
                            ..old(settings).api
                        },
                        ..*old(settings)
                    })
                } else {
                    &&& final(settings).api.provider == pv
                    &&& final(settings).api.protocol == if pv == ApiProvider::Custom {
                        protocol_named(lower(trim(self.protocol@)))->0
                    } else {
                        provider_protocol(pv)
                    }
                    &&& opt_view(final(settings).api.custom_provider_name) == trimmed_opt(
                        self.custom_provider_name@,
                    )
                    &&& opt_view(final(settings).api.api_key) == trimmed_opt(self.api_key@)
                    &&& final(settings).api.base_url@ == trimmed_or(self.base_url@, provider_base_url(pv))
                    &&& final(settings).model@ == trimmed_or(
                        self.model@,
                        provider_model(effective_provider(final(settings).api, env_view(*env))),
                    )
                    &&& fallback_chain_set(
                        ApiConfig {
                            fallback: FallbackConfig {
                                enabled: self.fallback_enabled,
                                chain: old(settings).api.fallback.chain,
                            },
                            ..final(settings).api
                        },
                        self.fallback_chain@,
                        json_chain,
                        final(settings).api,
                        r,
                    )
                    &&& final(settings).api.max_tokens == old(settings).api.max_tokens
                    &&& final(settings).api.timeout == old(settings).api.timeout
                    &&& final(settings).api.streaming == old(settings).api.streaming
                    &&& final(settings).api.beta_headers == old(settings).api.beta_headers
                    &&& *final(settings) == (Settings {
                        api: final(settings).api,
                        model: final(settings).model,
                        ..*old(settings)
                    })
                },
            },
    {
        match settings.api.set_provider(self.provider.as_str()) {
            Ok(()) => {},
            Err(e) => {
                return Err(e);
            },
        }
        let pv = settings.api.provider;
        if pv == ApiProvider::Custom {
            match settings.api.set_protocol(self.protocol.as_str()) {
                Ok(()) => {},
                Err(e) => {
                    return Err(e);
                },
            }
        }
        settings.api.custom_provider_name = trimmed_opt_exec(&self.custom_provider_name);
        settings.api.api_key = trimmed_opt_exec(&self.api_key);
        settings.api.base_url = trimmed_or_exec(&self.base_url, pv.default_base_url());
        let default_model = settings.api.default_model(env);
        settings.model = trimmed_or_exec(&self.model, default_model);
        settings.api.fallback.enabled = self.fallback_enabled;
        settings.api.set_fallback_chain_from_str(self.fallback_chain.as_str(), json_chain)
    }
}

impl<T: Copy> SettingsPanel<T> {
    /// The theme in use.
    pub fn theme(&self) -> (t: T)
        ensures
            t == self.theme,
    {
        self.theme
    }

    /// Switches the theme.
    pub fn set_theme(&mut self, theme: T)
        ensures
            *final(self) == (SettingsPanel { theme, ..*old(self) }),
    {
        self.theme = theme;
    }
}

/// The colour theme of the desktop window.
#[derive(Debug, Clone, Copy, PartialEq, Eq, Structural)]
pub enum Theme {
    Light,
    Dark,
    System,
}

/// The theme the theme button switches to: Light, Dark, System, in turn.
pub open spec fn next_theme_spec(t: Theme) -> Theme {
    match t {
        Theme::Light => Theme::Dark,
        Theme::Dark => Theme::System,
        Theme::System => Theme::Light,
    }
}

/// The theme the theme button switches to.
pub fn next_theme(t: Theme) -> (r: Theme)
    ensures
        r == next_theme_spec(t),
{
    match t {
        Theme::Light => Theme::Dark,
        Theme::Dark => Theme::System,
        Theme::System => Theme::Light,
    }
}

/// The icon on the theme button.
pub fn theme_icon(t: Theme) -> (s: &'static str)
    ensures
        s@ == match t {
            Theme::Light => "\u{2600}\u{fe0f}"@,
            Theme::Dark => "\u{1f319}"@,
            Theme::System => "\u{1f4bb}"@,
        },
{
    match t {
        Theme::Light => "\u{2600}\u{fe0f}",
        Theme::Dark => "\u{1f319}",
        Theme::System => "\u{1f4bb}",
    }
}

/// What the main area of the window shows.
#[derive(Debug, Clone, Copy, PartialEq, Eq, Structural)]
pub enum Screen {
    Onboarding,
    Settings,
    Chat,
}

/// What happens to the window's frame.
#[derive(Debug, Clone, Copy, PartialEq, Eq, Structural)]
pub enum ShellEvent {
    ToggleSettings,
    CycleTheme,
    OnboardingCompleted,
    /// The settings were saved with the settings panel's theme.
    SettingsSaved(Theme),
}

/// The state of the window's frame: its theme, and whether the onboarding
/// or the settings are open.
#[derive(Debug, Clone, Copy, PartialEq, Eq, Structural)]
pub struct AppShell {
    pub theme: Theme,
    pub show_onboarding: bool,
    pub show_settings: bool,
}

/// The frame after event `e`: the settings button opens or closes the
/// settings, the theme button moves to the next theme, a finished
/// onboarding closes it, and saved settings bring their theme.
pub open spec fn shell_step(s: AppShell, e: ShellEvent) -> AppShell {
    match e {
        ShellEvent::ToggleSettings => AppShell { show_settings: !s.show_settings, ..s },
        ShellEvent::CycleTheme => AppShell { theme: next_theme_spec(s.theme), ..s },
        ShellEvent::OnboardingCompleted => AppShell { show_onboarding: false, ..s },
        ShellEvent::SettingsSaved(t) => AppShell { theme: t, ..s },
    }
}

impl AppShell {
    /// A new window: dark, settings closed, and the onboarding open when
    /// the settings ask for it.
    pub fn new(needs_onboarding: bool) -> (s: Self)
        ensures
            s == (AppShell { theme: Theme::Dark, show_onboarding: needs_onboarding, show_settings: false }),
    {
        AppShell { theme: Theme::Dark, show_onboarding: needs_onboarding, show_settings: false }
    }

    /// What the main area shows: the onboarding first, then the settings
    /// when open, else the chat.
    pub fn screen(&self) -> (r: Screen)
        ensures
            r == if self.show_onboarding {
                Screen::Onboarding
            } else if self.show_settings {
                Screen::Settings
            } else {
                Screen::Chat
            },
    {
        if self.show_onboarding {
            Screen::Onboarding
        } else if self.show_settings {
            Screen::Settings
        } else {
            Screen::Chat
        }
    }

    /// The label of the settings button, ticked while the settings are open.
    pub fn settings_button_label(&self) -> (s: &'static str)
        ensures
            s@ == if self.show_settings {
                "\u{2713} \u{2699}\u{fe0f}"@
            } else {
                "\u{2699}\u{fe0f}"@
            },
    {
        if self.show_settings {
            "\u{2713} \u{2699}\u{fe0f}"
        } else {
            "\u{2699}\u{fe0f}"
        }
    }

    /// Takes in an event.
    pub fn handle(&mut self, e: ShellEvent)
        ensures
            *final(self) == shell_step(*old(self), e),
    {
        match e {
            ShellEvent::ToggleSettings => self.show_settings = !self.show_settings,
            ShellEvent::CycleTheme => self.theme = next_theme(self.theme),
            ShellEvent::OnboardingCompleted => self.show_onboarding = false,
            ShellEvent::SettingsSaved(t) => self.theme = t,
        }
    }
}

} // verus!
