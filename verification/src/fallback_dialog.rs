//! The onboarding dialogue that builds a fallback chain: which question
//! comes next, and what each answer does to the chain being built. The
//! caller asks each question and hands the answer back.

use vstd::prelude::*;
use crate::api_config::{
    chain_view, provider_base_url, provider_model, provider_protocol, ApiProtocol, ApiProvider,
    FallbackTarget, FallbackTargetView,
};
use crate::onboarding::{
    fallback_label_spec, fallback_of_draft, non_empty_or, optional_text, DraftView, OnboardingDraft,
};
use crate::text::{opt_view, views};

verus! {

/// Which question the dialogue waits on.
#[derive(Debug, Clone, Copy, PartialEq, Eq, Structural)]
pub enum DialogStage {
    Configure,
    Keep(usize),
    AddAnother,
    Provider,
    Protocol,
    CustomName,
    OverrideBaseUrl,
    BaseUrl,
    Model,
    ApiKey,
    Finished,
}

/// The fallback-chain dialogue in progress: the entries there were, the
/// chain built so far, the entry being filled in, and the question it
/// waits on.
pub struct FallbackDialog {
    pub existing: Vec<FallbackTarget>,
    pub chain: Vec<FallbackTarget>,
    pub draft: OnboardingDraft,
    pub stage: DialogStage,
}

/// The mathematical value of the dialogue.
pub struct DialogView {
    pub existing: Seq<FallbackTargetView>,
    pub chain: Seq<FallbackTargetView>,
    pub draft: DraftView,
    pub stage: DialogStage,
}

impl View for FallbackDialog {
    type V = DialogView;

    open spec fn view(&self) -> DialogView {
        DialogView {
            existing: chain_view(self.existing@),
            chain: chain_view(self.chain@),
            draft: self.draft@,
            stage: self.stage,
        }
    }
}

/// A question of the dialogue, with the answer taken when the user just
/// presses Enter.
#[derive(Debug, Clone)]
pub enum FallbackQuestion {
    /// Whether to configure fallbacks at all; `existing` lists the current
    /// entries.
    ConfigureFallback { default: bool, existing: Vec<String> },
    /// Whether to keep the existing entry `index` (from 0).
    KeepExisting { index: usize, label: String, default: bool },
    AddAnother { default: bool },
    Provider { default: ApiProvider },
    Protocol { default: ApiProtocol },
    CustomName { default: String },
    OverrideBaseUrl { default: bool },
    BaseUrl { default: String },
    Model { default: String },
    /// The key; `optional` when a blank one is fine.
    ApiKey { optional: bool },
    /// The dialogue is over; this is the chain.
    Done(Vec<FallbackTarget>),
}

/// The mathematical value of a question.
pub enum QuestionView {
    ConfigureFallback(bool, Seq<Seq<char>>),
    KeepExisting(usize, Seq<char>, bool),
    AddAnother(bool),
    Provider(ApiProvider),
    Protocol(ApiProtocol),
    CustomName(Seq<char>),
    OverrideBaseUrl(bool),
    BaseUrl(Seq<char>),
    Model(Seq<char>),
    ApiKey(bool),
    Done(Seq<FallbackTargetView>),
}

impl View for FallbackQuestion {
    type V = QuestionView;

    open spec fn view(&self) -> QuestionView {
        match self {
            FallbackQuestion::ConfigureFallback { default, existing } => QuestionView::ConfigureFallback(
                *default,
                views(existing@),
            ),
            FallbackQuestion::KeepExisting { index, label, default } => QuestionView::KeepExisting(
                *index,
                label@,
                *default,
            ),
            FallbackQuestion::AddAnother { default } => QuestionView::AddAnother(*default),
            FallbackQuestion::Provider { default } => QuestionView::Provider(*default),
            FallbackQuestion::Protocol { default } => QuestionView::Protocol(*default),
            FallbackQuestion::CustomName { default } => QuestionView::CustomName(default@),
            FallbackQuestion::OverrideBaseUrl { default } => QuestionView::OverrideBaseUrl(*default),
            FallbackQuestion::BaseUrl { default } => QuestionView::BaseUrl(default@),
            FallbackQuestion::Model { default } => QuestionView::Model(default@),
            FallbackQuestion::ApiKey { optional } => QuestionView::ApiKey(*optional),
            FallbackQuestion::Done(chain) => QuestionView::Done(chain_view(chain@)),
        }
    }
}

/// An answer, as the caller understood it.
#[derive(Debug, Clone, PartialEq, Eq)]
pub enum DialogAnswer {
    YesNo(bool),
    Text(String),
    Provider(ApiProvider),
    Protocol(ApiProtocol),
    /// A key, or none.
    Secret(Option<String>),
}

/// The mathematical value of an answer.
pub enum AnswerView {
    YesNo(bool),
    Text(Seq<char>),
    Provider(ApiProvider),
    Protocol(ApiProtocol),
    Secret(Option<Seq<char>>),
}

impl View for DialogAnswer {
    type V = AnswerView;

    open spec fn view(&self) -> AnswerView {
        match self {
            DialogAnswer::YesNo(b) => AnswerView::YesNo(*b),
            DialogAnswer::Text(t) => AnswerView::Text(t@),
            DialogAnswer::Provider(p) => AnswerView::Provider(*p),
            DialogAnswer::Protocol(q) => AnswerView::Protocol(*q),
            DialogAnswer::Secret(k) => AnswerView::Secret(opt_view(*k)),
        }
    }
}

/// The entry a new fallback starts from for provider `p`: its protocol
/// (OpenAI for a custom one), endpoint and model, no name and no key.
pub open spec fn fresh_draft(p: ApiProvider) -> DraftView {
    DraftView {
        provider: p,
        protocol: provider_protocol(p),
        custom_provider_name: None,
        api_key: None,
        base_url: provider_base_url(p),
        model: provider_model(p),
        fallback_enabled: false,
        fallback_chain: Seq::empty(),
    }
}

/// The question the dialogue asks in state `s`: configuring fallbacks is
/// proposed when there are some already, keeping each one is proposed,
/// adding another is proposed while the chain is empty, a new entry starts
/// from OpenAI (and a custom one from the OpenAI protocol and the name
/// `custom`), the endpoint is kept unless asked, and a key may be left
/// blank for Ollama.
pub open spec fn question_of(s: DialogView) -> QuestionView {
    match s.stage {
        DialogStage::Configure => QuestionView::ConfigureFallback(
            s.existing.len() > 0,
            s.existing.map_values(|t: FallbackTargetView| fallback_label_spec(t)),
        ),
        DialogStage::Keep(i) => if i < s.existing.len() {
            QuestionView::KeepExisting(i, fallback_label_spec(s.existing[i as int]), true)
        } else {
            QuestionView::AddAnother(s.chain.len() == 0)
        },
        DialogStage::AddAnother => QuestionView::AddAnother(s.chain.len() == 0),
        DialogStage::Provider => QuestionView::Provider(ApiProvider::OpenAI),
        DialogStage::Protocol => QuestionView::Protocol(ApiProtocol::OpenAi),
        DialogStage::CustomName => QuestionView::CustomName("custom"@),
        DialogStage::OverrideBaseUrl => QuestionView::OverrideBaseUrl(false),
        DialogStage::BaseUrl => QuestionView::BaseUrl(provider_base_url(s.draft.provider)),
        DialogStage::Model => QuestionView::Model(provider_model(s.draft.provider)),
        DialogStage::ApiKey => QuestionView::ApiKey(s.draft.provider == ApiProvider::Ollama),
        DialogStage::Finished => QuestionView::Done(s.chain),
    }
}

/// The dialogue over the existing entries, before its first answer.
pub open spec fn start_state(existing: Seq<FallbackTargetView>) -> DialogView {
    DialogView {
        existing,
        chain: Seq::empty(),
        draft: fresh_draft(ApiProvider::OpenAI),
        stage: DialogStage::Configure,
    }
}

/// The stage after the existing entry `i` was decided on.
pub open spec fn after_keep(existing: Seq<FallbackTargetView>, i: int) -> DialogStage {
    if i + 1 < existing.len() {
        DialogStage::Keep((i + 1) as usize)
    } else {
        DialogStage::AddAnother
    }
}

/// What answer `a` does to the dialogue `s`. An answer of the wrong kind,
/// or any answer once the dialogue is over, changes nothing.
pub open spec fn next_state(s: DialogView, a: AnswerView) -> DialogView {
    match (s.stage, a) {
        (DialogStage::Configure, AnswerView::YesNo(b)) => if !b {
            DialogView { chain: Seq::empty(), stage: DialogStage::Finished, ..s }
        } else if s.existing.len() > 0 {
            DialogView { stage: DialogStage::Keep(0), ..s }
        } else {
            DialogView { stage: DialogStage::AddAnother, ..s }
        },
        (DialogStage::Keep(i), AnswerView::YesNo(b)) => if i < s.existing.len() {
            DialogView {
                chain: if b {
                    s.chain.push(s.existing[i as int])
                } else {
                    s.chain
                },
                stage: after_keep(s.existing, i as int),
                ..s
            }
        } else {
            DialogView { stage: DialogStage::AddAnother, ..s }
        },
        (DialogStage::AddAnother, AnswerView::YesNo(b)) => DialogView {
            stage: if b {
                DialogStage::Provider
            } else {
                DialogStage::Finished
            },
            ..s
        },
        (DialogStage::Provider, AnswerView::Provider(p)) => DialogView {
            draft: fresh_draft(p),
            stage: if p == ApiProvider::Custom {
                DialogStage::Protocol
            } else {
                DialogStage::OverrideBaseUrl
            },
            ..s
        },
        (DialogStage::Protocol, AnswerView::Protocol(q)) => DialogView {
            draft: DraftView { protocol: q, ..s.draft },
            stage: DialogStage::CustomName,
            ..s
        },
        (DialogStage::CustomName, AnswerView::Text(t)) => DialogView {
            draft: DraftView { custom_provider_name: optional_text(t), ..s.draft },
            stage: DialogStage::BaseUrl,
            ..s
        },
        (DialogStage::OverrideBaseUrl, AnswerView::YesNo(b)) => DialogView {
            stage: if b {
                DialogStage::BaseUrl
            } else {
                DialogStage::Model
            },
            ..s
        },
        (DialogStage::BaseUrl, AnswerView::Text(t)) => DialogView {
            draft: DraftView { base_url: non_empty_or(t, provider_base_url(s.draft.provider)), ..s.draft },
            stage: DialogStage::Model,
            ..s
        },
        (DialogStage::Model, AnswerView::Text(t)) => DialogView {
            draft: DraftView { model: non_empty_or(t, provider_model(s.draft.provider)), ..s.draft },
            stage: DialogStage::ApiKey,
            ..s
        },
        (DialogStage::ApiKey, AnswerView::Secret(k)) => {
            let d = DraftView {
                api_key: match k {
                    Some(v) => optional_text(v),
                    None => None,
                },
                ..s.draft
            };
            DialogView { chain: s.chain.push(fallback_of_draft(d)), draft: d, stage: DialogStage::AddAnother, ..s }
        },
        _ => s,
    }
}

/// The dialogue's opening: its state and first question.
pub open spec fn fallback_dialog_start_spec(existing: Seq<FallbackTargetView>) -> (DialogView, QuestionView) {
    (start_state(existing), question_of(start_state(existing)))
}

/// One step of the dialogue: the state after answer `a`, and the next
/// question.
pub open spec fn fallback_dialog_spec(s: DialogView, a: AnswerView) -> (DialogView, QuestionView) {
    (next_state(s, a), question_of(next_state(s, a)))
}

impl FallbackDialog {
    /// The question the dialogue waits on.
    pub fn pending_question(&self) -> (q: FallbackQuestion)
        ensures
            q@ == question_of(self@),
    {
        match self.stage {
            DialogStage::Configure => {
                let mut labels: Vec<String> = Vec::new();
                let mut i: usize = 0;
                while i < self.existing.len()
                    invariant
                        i <= self.existing.len(),
                        views(labels@) == chain_view(self.existing@).subrange(0, i as int).map_values(
                            |t: FallbackTargetView| fallback_label_spec(t),
                        ),
                    decreases self.existing.len() - i,
                {
                    let ghost before = views(labels@);
                    labels.push(OnboardingDraft::fallback_target_label(&self.existing[i]));
                    assert(views(labels@) =~= before.push(fallback_label_spec(self.existing@[i as int]@)));
                    assert(chain_view(self.existing@).subrange(0, i + 1).map_values(
                        |t: FallbackTargetView| fallback_label_spec(t),
                    ) =~= chain_view(self.existing@).subrange(0, i as int).map_values(
                        |t: FallbackTargetView| fallback_label_spec(t),
                    ).push(fallback_label_spec(self.existing@[i as int]@)));
                    i = i + 1;
                }
                assert(chain_view(self.existing@).subrange(0, self.existing.len() as int)
                    =~= chain_view(self.existing@));
                FallbackQuestion::ConfigureFallback { default: self.existing.len() > 0, existing: labels }
            },
            DialogStage::Keep(i) => if i < self.existing.len() {
                FallbackQuestion::KeepExisting {
                    index: i,
                    label: OnboardingDraft::fallback_target_label(&self.existing[i]),
                    default: true,
                }
            } else {
                FallbackQuestion::AddAnother { default: self.chain.len() == 0 }
            },
            DialogStage::AddAnother => FallbackQuestion::AddAnother { default: self.chain.len() == 0 },
            DialogStage::Provider => FallbackQuestion::Provider { default: ApiProvider::OpenAI },
            DialogStage::Protocol => FallbackQuestion::Protocol { default: ApiProtocol::OpenAi },
            DialogStage::CustomName => FallbackQuestion::CustomName { default: String::from_str("custom") },
            DialogStage::OverrideBaseUrl => FallbackQuestion::OverrideBaseUrl { default: false },
            DialogStage::BaseUrl => FallbackQuestion::BaseUrl {
                default: String::from_str(self.draft.provider.default_base_url()),
            },
            DialogStage::Model => FallbackQuestion::Model {
                default: String::from_str(self.draft.provider.default_model()),
            },
            DialogStage::ApiKey => FallbackQuestion::ApiKey { optional: self.draft.provider == ApiProvider::Ollama },
            DialogStage::Finished => FallbackQuestion::Done(crate::api_config::clone_chain(&self.chain)),
        }
    }
}

/// Opens the dialogue over the existing fallback entries.
pub fn fallback_dialog_start(existing: Vec<FallbackTarget>) -> (r: (FallbackDialog, FallbackQuestion))
    ensures
        (r.0@, r.1@) == fallback_dialog_start_spec(chain_view(existing@)),
{
    let state = FallbackDialog {
        existing,
        chain: Vec::new(),
        draft: OnboardingDraft::for_fallback_provider(ApiProvider::OpenAI),
        stage: DialogStage::Configure,
    };
    assert(chain_view(state.chain@) =~= Seq::<FallbackTargetView>::empty());
    let q = state.pending_question();
    (state, q)
}

/// Takes the answer to the pending question; returns the dialogue and its
/// next question (`Done` with the chain once it is over).
pub fn fallback_dialog_step(state: FallbackDialog, answer: DialogAnswer) -> (r: (FallbackDialog, FallbackQuestion))
    ensures
        (r.0@, r.1@) == fallback_dialog_spec(state@, answer@),
{
    let ghost s = state@;
    let mut st = state;
    match (st.stage, answer) {
        (DialogStage::Configure, DialogAnswer::YesNo(b)) => {
            if !b {
                st.chain = Vec::new();
                st.stage = DialogStage::Finished;
                assert(chain_view(st.chain@) =~= Seq::<FallbackTargetView>::empty());
            } else if st.existing.len() > 0 {
                st.stage = DialogStage::Keep(0);
            } else {
                st.stage = DialogStage::AddAnother;
            }
        },
        (DialogStage::Keep(i), DialogAnswer::YesNo(b)) => {
            if i < st.existing.len() {
                if b {
                    let t = st.existing[i].clone();
                    let ghost before = chain_view(st.chain@);
                    st.chain.push(t);
                    assert(chain_view(st.chain@) =~= before.push(s.existing[i as int]));
                }
                st.stage = if i + 1 < st.existing.len() {
                    DialogStage::Keep(i + 1)
                } else {
                    DialogStage::AddAnother
                };
            } else {
                st.stage = DialogStage::AddAnother;
            }
        },
        (DialogStage::AddAnother, DialogAnswer::YesNo(b)) => {
            st.stage = if b {
                DialogStage::Provider
            } else {
                DialogStage::Finished
            };
        },
        (DialogStage::Provider, DialogAnswer::Provider(p)) => {
            st.draft = OnboardingDraft::for_fallback_provider(p);
            st.stage = if p == ApiProvider::Custom {
                DialogStage::Protocol
            } else {
                DialogStage::OverrideBaseUrl
            };
        },
        (DialogStage::Protocol, DialogAnswer::Protocol(q)) => {
            st.draft.set_protocol(q);
            st.stage = DialogStage::CustomName;
        },
        (DialogStage::CustomName, DialogAnswer::Text(t)) => {
            st.draft.set_custom_provider_name(t);
            st.stage = DialogStage::BaseUrl;
        },
        (DialogStage::OverrideBaseUrl, DialogAnswer::YesNo(b)) => {
            st.stage = if b {
                DialogStage::BaseUrl
            } else {
                DialogStage::Model
            };
        },
        (DialogStage::BaseUrl, DialogAnswer::Text(t)) => {
            st.draft.set_base_url(t);
            st.stage = DialogStage::Model;
        },
        (DialogStage::Model, DialogAnswer::Text(t)) => {
            st.draft.set_model(t);
            st.stage = DialogStage::ApiKey;
        },
        (DialogStage::ApiKey, DialogAnswer::Secret(k)) => {
            st.draft.set_api_key(k);
            let t = st.draft.to_fallback_target();
            let ghost before = chain_view(st.chain@);
            st.chain.push(t);
            assert(chain_view(st.chain@) =~= before.push(fallback_of_draft(st.draft@)));
            st.stage = DialogStage::AddAnother;
        },
        _ => {},
    }
    let q = st.pending_question();
    (st, q)
}

} // verus!
