//! The line-based onboarding dialogue: the primary provider, protocol,
//! endpoint, model and key, then the fallback chain, then whether to save.
//! The library decides each question and what each answer does; the caller
//! asks and hands the answers back.

use vstd::prelude::*;
use crate::api_config::{
    chain_view, provider_base_url, provider_model, provider_protocol, ApiProtocol, ApiProvider,
    FallbackTargetView,
};
use crate::fallback_dialog::{
    fallback_dialog_start, fallback_dialog_start_spec, fallback_dialog_step, fallback_dialog_spec,
    fresh_draft, start_state, AnswerView, DialogAnswer, DialogStage, DialogView, FallbackDialog,
    FallbackQuestion, QuestionView,
};
use crate::onboarding::{non_empty_or, optional_text, summary_spec, DraftView, OnboardingDraft};
use crate::text::{opt_view, views};

verus! {

/// Which question the onboarding waits on.
#[derive(Debug, Clone, Copy, PartialEq, Eq, Structural)]
pub enum OnboardingStage {
    Provider,
    Protocol,
    CustomName,
    BaseUrl,
    Model,
    ApiKey,
    KeepChain,
    Fallbacks,
    Save,
    Saved,
    Cancelled,
}

/// The onboarding in progress: the draft, the fallback dialogue (once it
/// runs) and the question waited on.
pub struct OnboardingDialog {
    pub draft: OnboardingDraft,
    pub fallbacks: FallbackDialog,
    pub stage: OnboardingStage,
}

/// The mathematical value of the onboarding.
pub struct OnboardingView {
    pub draft: DraftView,
    pub fallbacks: DialogView,
    pub stage: OnboardingStage,
}

impl View for OnboardingDialog {
    type V = OnboardingView;

    open spec fn view(&self) -> OnboardingView {
        OnboardingView { draft: self.draft@, fallbacks: self.fallbacks@, stage: self.stage }
    }
}

/// A question of the onboarding, with the answer Enter gives.
#[derive(Debug, Clone)]
pub enum OnboardingQuestion {
    Provider { default: ApiProvider },
    Protocol { default: ApiProtocol },
    CustomName { default: String },
    BaseUrl { default: String },
    Model { default: String },
    /// The key: Enter keeps `existing`; `optional` when a blank one is fine.
    ApiKey { existing: Option<String>, optional: bool },
    /// Whether to start from the current fallback chain.
    KeepChain { default: bool },
    /// A question of the fallback-chain dialogue.
    Fallback(FallbackQuestion),
    /// Whether to save; `summary` shows the draft.
    Save { summary: Vec<String>, default: bool },
    /// Saved: this draft is to be written to the settings.
    Done(OnboardingDraft),
    /// Not saved.
    Cancelled,
}

/// The mathematical value of a question.
pub enum OnboardingQuestionView {
    Provider(ApiProvider),
    Protocol(ApiProtocol),
    CustomName(Seq<char>),
    BaseUrl(Seq<char>),
    Model(Seq<char>),
    ApiKey(Option<Seq<char>>, bool),
    KeepChain(bool),
    Fallback(QuestionView),
    Save(Seq<Seq<char>>, bool),
    Done(DraftView),
    Cancelled,
}

impl View for OnboardingQuestion {
    type V = OnboardingQuestionView;

    open spec fn view(&self) -> OnboardingQuestionView {
        match self {
            OnboardingQuestion::Provider { default } => OnboardingQuestionView::Provider(*default),
            OnboardingQuestion::Protocol { default } => OnboardingQuestionView::Protocol(*default),
            OnboardingQuestion::CustomName { default } => OnboardingQuestionView::CustomName(default@),
            OnboardingQuestion::BaseUrl { default } => OnboardingQuestionView::BaseUrl(default@),
            OnboardingQuestion::Model { default } => OnboardingQuestionView::Model(default@),
            OnboardingQuestion::ApiKey { existing, optional } => OnboardingQuestionView::ApiKey(
                opt_view(*existing),
                *optional,
            ),
            OnboardingQuestion::KeepChain { default } => OnboardingQuestionView::KeepChain(*default),
            OnboardingQuestion::Fallback(q) => OnboardingQuestionView::Fallback(q@),
            OnboardingQuestion::Save { summary, default } => OnboardingQuestionView::Save(views(summary@), *default),
            OnboardingQuestion::Done(d) => OnboardingQuestionView::Done(d@),
            OnboardingQuestion::Cancelled => OnboardingQuestionView::Cancelled,
        }
    }
}

/// The draft once the primary provider is chosen: a different provider
/// brings its endpoint and model and drops the key; a custom one keeps the
/// protocol and gets the name `custom` if it has none; a preset gets its
/// own protocol and loses the custom name.
pub open spec fn primary_draft(d: DraftView, p: ApiProvider) -> DraftView {
    DraftView {
        provider: p,
        protocol: if p == ApiProvider::Custom {
            d.protocol
        } else {
            provider_protocol(p)
        },
        custom_provider_name: if p == ApiProvider::Custom {
            match d.custom_provider_name {
                Some(n) => Some(n),
                None => Some("custom"@),
            }
        } else {
            None
        },
        api_key: if d.provider != p {
            None
        } else {
            d.api_key
        },
        base_url: if d.provider != p {
            provider_base_url(p)
        } else {
            d.base_url
        },
        model: if d.provider != p {
            provider_model(p)
        } else {
            d.model
        },
        ..d
    }
}

/// The question asked in state `s`. The endpoint offered is the draft's own
/// for a custom provider and the preset's default otherwise; the key may be
/// left blank for Ollama; starting from the current chain is proposed.
pub open spec fn onboarding_question(s: OnboardingView) -> OnboardingQuestionView {
    match s.stage {
        OnboardingStage::Provider => OnboardingQuestionView::Provider(s.draft.provider),
        OnboardingStage::Protocol => OnboardingQuestionView::Protocol(s.draft.protocol),
        OnboardingStage::CustomName => OnboardingQuestionView::CustomName(
            match s.draft.custom_provider_name {
                Some(n) => n,
                None => "custom"@,
            },
        ),
        OnboardingStage::BaseUrl => OnboardingQuestionView::BaseUrl(
            if s.draft.provider == ApiProvider::Custom {
                s.draft.base_url
            } else {
                provider_base_url(s.draft.provider)
            },
        ),
        OnboardingStage::Model => OnboardingQuestionView::Model(s.draft.model),
        OnboardingStage::ApiKey => OnboardingQuestionView::ApiKey(
            s.draft.api_key,
            s.draft.provider == ApiProvider::Ollama,
        ),
        OnboardingStage::KeepChain => OnboardingQuestionView::KeepChain(true),
        OnboardingStage::Fallbacks => OnboardingQuestionView::Fallback(
            crate::fallback_dialog::question_of(s.fallbacks),
        ),
        OnboardingStage::Save => OnboardingQuestionView::Save(summary_spec(s.draft), true),
        OnboardingStage::Saved => OnboardingQuestionView::Done(s.draft),
        OnboardingStage::Cancelled => OnboardingQuestionView::Cancelled,
    }
}

/// The state once the fallback dialogue starts over `existing`.
pub open spec fn with_fallbacks(s: OnboardingView, existing: Seq<FallbackTargetView>) -> OnboardingView {
    OnboardingView { fallbacks: start_state(existing), stage: OnboardingStage::Fallbacks, ..s }
}

/// What answer `a` does to the onboarding `s`. An answer of the wrong kind,
/// or any answer once it is over, changes nothing.
pub open spec fn onboarding_next(s: OnboardingView, a: AnswerView) -> OnboardingView {
    match (s.stage, a) {
        (OnboardingStage::Provider, AnswerView::Provider(p)) => {
            let d = primary_draft(s.draft, p);
            if p == ApiProvider::Custom {
                OnboardingView { draft: d, stage: OnboardingStage::Protocol, ..s }
            } else {
                OnboardingView { draft: d, stage: OnboardingStage::BaseUrl, ..s }
            }
        },
        (OnboardingStage::Protocol, AnswerView::Protocol(q)) => OnboardingView {
            draft: DraftView { protocol: q, ..s.draft },
            stage: OnboardingStage::CustomName,
            ..s
        },
        (OnboardingStage::CustomName, AnswerView::Text(t)) => OnboardingView {
            draft: DraftView { custom_provider_name: optional_text(t), ..s.draft },
            stage: OnboardingStage::BaseUrl,
            ..s
        },
        (OnboardingStage::BaseUrl, AnswerView::Text(t)) => OnboardingView {
            draft: DraftView { base_url: non_empty_or(t, provider_base_url(s.draft.provider)), ..s.draft },
            stage: OnboardingStage::Model,
            ..s
        },
        (OnboardingStage::Model, AnswerView::Text(t)) => OnboardingView {
            draft: DraftView { model: non_empty_or(t, provider_model(s.draft.provider)), ..s.draft },
            stage: OnboardingStage::ApiKey,
            ..s
        },
        (OnboardingStage::ApiKey, AnswerView::Secret(k)) => {
            let d = DraftView {
                api_key: match k {
                    Some(v) => optional_text(v),
                    None => None,
                },
                ..s.draft
            };
            if d.fallback_chain.len() > 0 {
                OnboardingView { draft: d, stage: OnboardingStage::KeepChain, ..s }
            } else {
                with_fallbacks(OnboardingView { draft: d, ..s }, Seq::empty())
            }
        },
        (OnboardingStage::KeepChain, AnswerView::YesNo(b)) => with_fallbacks(
            s,
            if b {
                s.draft.fallback_chain
            } else {
                Seq::empty()
            },
        ),
        (OnboardingStage::Fallbacks, a) => {
            let f = crate::fallback_dialog::next_state(s.fallbacks, a);
            if f.stage == DialogStage::Finished {
                OnboardingView {
                    draft: DraftView { fallback_chain: f.chain, fallback_enabled: f.chain.len() > 0, ..s.draft },
                    fallbacks: f,
                    stage: OnboardingStage::Save,
                }
            } else {
                OnboardingView { fallbacks: f, ..s }
            }
        },
        (OnboardingStage::Save, AnswerView::YesNo(b)) => OnboardingView {
            stage: if b {
                OnboardingStage::Saved
            } else {
                OnboardingStage::Cancelled
            },
            ..s
        },
        _ => s,
    }
}

/// The opening of the onboarding from the current settings' draft.
pub open spec fn onboarding_start_spec(d: DraftView) -> (OnboardingView, OnboardingQuestionView) {
    let s = OnboardingView { draft: d, fallbacks: start_state(Seq::empty()), stage: OnboardingStage::Provider };
    (s, onboarding_question(s))
}

/// One step of the onboarding.
pub open spec fn onboarding_step_spec(s: OnboardingView, a: AnswerView) -> (OnboardingView, OnboardingQuestionView) {
    (onboarding_next(s, a), onboarding_question(onboarding_next(s, a)))
}

impl OnboardingDialog {
    fn question(&self) -> (q: OnboardingQuestion)
        ensures
            q@ == onboarding_question(self@),
    {
        match self.stage {
            OnboardingStage::Provider => OnboardingQuestion::Provider { default: self.draft.provider },
            OnboardingStage::Protocol => OnboardingQuestion::Protocol { default: self.draft.protocol },
            OnboardingStage::CustomName => OnboardingQuestion::CustomName {
                default: match &self.draft.custom_provider_name {
                    Some(n) => n.clone(),
                    None => String::from_str("custom"),
                },
            },
            OnboardingStage::BaseUrl => OnboardingQuestion::BaseUrl {
                default: if self.draft.provider == ApiProvider::Custom {
                    self.draft.base_url.clone()
                } else {
                    String::from_str(self.draft.provider.default_base_url())
                },
            },
            OnboardingStage::Model => OnboardingQuestion::Model { default: self.draft.model.clone() },
            OnboardingStage::ApiKey => OnboardingQuestion::ApiKey {
                existing: crate::text::clone_opt(&self.draft.api_key),
                optional: self.draft.provider == ApiProvider::Ollama,
            },
            OnboardingStage::KeepChain => OnboardingQuestion::KeepChain { default: true },
            OnboardingStage::Fallbacks => OnboardingQuestion::Fallback(self.fallbacks.pending_question()),
            OnboardingStage::Save => OnboardingQuestion::Save { summary: self.draft.summary_lines(), default: true },
            OnboardingStage::Saved => OnboardingQuestion::Done(self.draft.clone()),
            OnboardingStage::Cancelled => OnboardingQuestion::Cancelled,
        }
    }
}

/// Opens the onboarding with the draft taken from the current settings.
pub fn onboarding_start(draft: OnboardingDraft) -> (r: (OnboardingDialog, OnboardingQuestion))
    ensures
        (r.0@, r.1@) == onboarding_start_spec(draft@),
{
    let none: Vec<crate::api_config::FallbackTarget> = Vec::new();
    assert(chain_view(none@) =~= Seq::<FallbackTargetView>::empty());
    let (fallbacks, _) = fallback_dialog_start(none);
    let state = OnboardingDialog { draft, fallbacks, stage: OnboardingStage::Provider };
    let q = state.question();
    (state, q)
}

/// Takes the answer to the pending question; returns the onboarding and
/// its next question (`Done` with the draft to save, or `Cancelled`).
pub fn onboarding_step(state: OnboardingDialog, answer: DialogAnswer) -> (r: (OnboardingDialog, OnboardingQuestion))
    ensures
        (r.0@, r.1@) == onboarding_step_spec(state@, answer@),
{
    let ghost s = state@;
    let mut st = state;
    match (st.stage, answer) {
        (OnboardingStage::Provider, DialogAnswer::Provider(p)) => {
            st.draft.prepare_for_provider_change(p);
            st.stage = if p == ApiProvider::Custom {
                OnboardingStage::Protocol
            } else {
                OnboardingStage::BaseUrl
            };
        },
        (OnboardingStage::Protocol, DialogAnswer::Protocol(q)) => {
            st.draft.set_protocol(q);
            st.stage = OnboardingStage::CustomName;
        },
        (OnboardingStage::CustomName, DialogAnswer::Text(t)) => {
            st.draft.set_custom_provider_name(t);
            st.stage = OnboardingStage::BaseUrl;
        },
        (OnboardingStage::BaseUrl, DialogAnswer::Text(t)) => {
            st.draft.set_base_url(t);
            st.stage = OnboardingStage::Model;
        },
        (OnboardingStage::Model, DialogAnswer::Text(t)) => {
            st.draft.set_model(t);
            st.stage = OnboardingStage::ApiKey;
        },
        (OnboardingStage::ApiKey, DialogAnswer::Secret(k)) => {
            st.draft.set_api_key(k);
            if st.draft.fallback_chain.len() > 0 {
                st.stage = OnboardingStage::KeepChain;
            } else {
                let none: Vec<crate::api_config::FallbackTarget> = Vec::new();
                assert(chain_view(none@) =~= Seq::<FallbackTargetView>::empty());
                let (f, _) = fallback_dialog_start(none);
                st.fallbacks = f;
                st.stage = OnboardingStage::Fallbacks;
            }
        },
        (OnboardingStage::KeepChain, DialogAnswer::YesNo(b)) => {
            let existing = if b {
                crate::api_config::clone_chain(&st.draft.fallback_chain)
            } else {
                Vec::new()
            };
            assert(!b ==> chain_view(existing@) =~= Seq::<FallbackTargetView>::empty());
            let (f, _) = fallback_dialog_start(existing);
            st.fallbacks = f;
            st.stage = OnboardingStage::Fallbacks;
        },
        (OnboardingStage::Fallbacks, a) => {
            let dialog = st.fallbacks;
            let (f, _) = fallback_dialog_step(dialog, a);
            if f.stage == DialogStage::Finished {
                st.draft.fallback_chain = crate::api_config::clone_chain(&f.chain);
                st.draft.fallback_enabled = f.chain.len() > 0;
                st.stage = OnboardingStage::Save;
            }
            st.fallbacks = f;
        },
        (OnboardingStage::Save, DialogAnswer::YesNo(b)) => {
            st.stage = if b {
                OnboardingStage::Saved
            } else {
                OnboardingStage::Cancelled
            };
        },
        _ => {},
    }
    let q = st.question();
    (st, q)
}

} // verus!
