//! Deciding when a conversation should be compacted, and shaping the
//! compacted history.

use vstd::prelude::*;
use crate::runtime::{
    MessageView, QueryTurnResult, RuntimeMessage, RuntimeRole, RuntimeToolCall, RuntimeUsage, ToolCallView,
    TurnStatus, messages_view,
};
use crate::text::{chars_of, concat, has_prefix, opt_view, starts_with_str};

verus! {

/// The text that opens a full compaction summary.
pub const COMPACT_SUMMARY_PREFIX: &'static str = "Previous conversation compacted into summary:\n";

/// The text that opens a micro-compaction summary.
pub const MICRO_COMPACT_SUMMARY_PREFIX: &'static str = "Previous conversation micro-compacted into summary:\n";

/// Settings that govern compaction.
#[derive(Debug)]
pub struct CompactSettings {
    pub enabled: bool,
    pub auto_compact: bool,
    pub reactive_compact: bool,
    pub enable_microcompact: bool,
    pub max_turns_before_compact: usize,
    pub max_tokens_before_compact: usize,
    pub preserve_recent_turns: usize,
    pub reserved_completion_budget: usize,
    pub summary_model: Option<String>,
}

impl Clone for CompactSettings {
    fn clone(&self) -> (r: Self)
        ensures
            r.enabled == self.enabled,
            r.auto_compact == self.auto_compact,
            r.reactive_compact == self.reactive_compact,
            r.enable_microcompact == self.enable_microcompact,
            r.max_turns_before_compact == self.max_turns_before_compact,
            r.max_tokens_before_compact == self.max_tokens_before_compact,
            r.preserve_recent_turns == self.preserve_recent_turns,
            r.reserved_completion_budget == self.reserved_completion_budget,
            r.summary_model == self.summary_model,
    {
        CompactSettings {
            enabled: self.enabled,
            auto_compact: self.auto_compact,
            reactive_compact: self.reactive_compact,
            enable_microcompact: self.enable_microcompact,
            max_turns_before_compact: self.max_turns_before_compact,
            max_tokens_before_compact: self.max_tokens_before_compact,
            preserve_recent_turns: self.preserve_recent_turns,
            reserved_completion_budget: self.reserved_completion_budget,
            summary_model: self.summary_model.clone(),
        }
    }
}

impl Default for CompactSettings {
    fn default() -> (s: Self)
        ensures
            s.enabled && s.auto_compact && s.reactive_compact && s.enable_microcompact,
            s.max_turns_before_compact == 24,
            s.max_tokens_before_compact == 32_000,
            s.preserve_recent_turns == 4,
            s.reserved_completion_budget == 4_096,
            s.summary_model is None,
    {
        CompactSettings {
            enabled: true,
            auto_compact: true,
            reactive_compact: true,
            enable_microcompact: true,
            max_turns_before_compact: 24,
            max_tokens_before_compact: 32_000,
            preserve_recent_turns: 4,
            reserved_completion_budget: 4_096,
            summary_model: None,
        }
    }
}

/// An estimate of how much of the token budget a history uses.
#[derive(Debug, Clone, Copy, PartialEq, Eq, Structural)]
pub struct TokenBudgetEstimate {
    pub prompt_estimate: usize,
    pub recent_turns_estimate: usize,
    pub tool_context_estimate: usize,
    pub reserved_completion_budget: usize,
    pub remaining_budget: usize,
}

/// What to do about the size of a history.
#[derive(Debug, Clone, Copy, PartialEq, Eq, Structural)]
pub enum CompactDecision {
    NoAction,
    MicroCompact,
    FullCompact,
    RejectForOverflow,
}

/// The number of bytes of the UTF-8 encoding of `s`.
pub open spec fn byte_len(s: Seq<char>) -> int {
    (vstd::utf8::encode_utf8(s).len() as usize) as int
}

/// The summed size of the names and argument texts of tool calls.
pub open spec fn calls_size(calls: Seq<ToolCallView>) -> int
    decreases calls.len(),
{
    if calls.len() == 0 {
        0
    } else {
        calls_size(calls.drop_last()) + byte_len(calls.last().name) + byte_len(
            calls.last().arguments,
        )
    }
}

/// The size of a tool result's name and content, in bytes.
pub open spec fn result_size(m: MessageView) -> int {
    match m.tool_result {
        Some(r) => byte_len(r.name) + byte_len(r.content),
        None => 0,
    }
}

/// The token estimate of one message: a quarter of its characters, a quarter
/// of its tool calls' bytes, a quarter of its tool result's bytes, plus 12.
pub open spec fn message_tokens(m: MessageView) -> int {
    m.content.len() / 4 + calls_size(m.tool_calls) / 4 + result_size(m) / 4 + 12
}

/// The raw size behind a message's estimate (what the estimate adds up).
pub open spec fn message_size(m: MessageView) -> int {
    m.content.len() + calls_size(m.tool_calls) + result_size(m) + 12
}

/// The token estimate of a history.
pub open spec fn history_tokens(h: Seq<MessageView>) -> int
    decreases h.len(),
{
    if h.len() == 0 {
        0
    } else {
        history_tokens(h.drop_last()) + message_tokens(h.last())
    }
}

/// The summed raw size of a history.
pub open spec fn history_size(h: Seq<MessageView>) -> int
    decreases h.len(),
{
    if h.len() == 0 {
        0
    } else {
        history_size(h.drop_last()) + message_size(h.last())
    }
}

/// A message that carries tool calls or a tool result.
pub open spec fn is_tool_context(m: MessageView) -> bool {
    m.tool_calls.len() > 0 || m.tool_result is Some
}

/// The token estimate of the tool-carrying messages of a history.
pub open spec fn tool_context_tokens(h: Seq<MessageView>) -> int
    decreases h.len(),
{
    if h.len() == 0 {
        0
    } else {
        tool_context_tokens(h.drop_last()) + if is_tool_context(h.last()) {
            message_tokens(h.last())
        } else {
            0
        }
    }
}

/// How many trailing messages survive a compaction that keeps `turns`
/// recent turns: two per turn (saturating), at least one.
pub open spec fn preserved_count(turns: usize) -> int {
    let doubled = if 2 * turns > usize::MAX {
        usize::MAX as int
    } else {
        2 * turns
    };
    if doubled < 1 {
        1
    } else {
        doubled
    }
}

/// `a - b`, or 0 when `b > a`.
pub open spec fn sat_sub(a: int, b: int) -> int {
    if a > b {
        a - b
    } else {
        0
    }
}

/// `a + b`, capped at `usize::MAX`.
pub open spec fn sat_add(a: int, b: int) -> int {
    if a + b > usize::MAX {
        usize::MAX as int
    } else {
        a + b
    }
}

/// The budget estimate for `h` under `s`; `usage` is the provider-reported
/// token count when known.
pub open spec fn budget_spec(s: CompactSettings, h: Seq<MessageView>, usage: Option<usize>) -> TokenBudgetEstimate {
    let prompt = match usage {
        Some(u) => u as int,
        None => history_tokens(h),
    };
    let recent_start = sat_sub(h.len() as int, preserved_count(s.preserve_recent_turns));
    TokenBudgetEstimate {
        prompt_estimate: prompt as usize,
        recent_turns_estimate: history_tokens(h.skip(recent_start)) as usize,
        tool_context_estimate: tool_context_tokens(h) as usize,
        reserved_completion_budget: s.reserved_completion_budget,
        remaining_budget: sat_sub(
            s.max_tokens_before_compact as int,
            sat_add(prompt, s.reserved_completion_budget as int),
        ) as usize,
    }
}

/// The compaction decision for a history of `len` messages with budget
/// estimate `e`. Disabled compaction (or the disabled trigger kind) decides
/// nothing. An exhausted budget asks for a micro compaction when that is
/// enabled and there is more than one message, else a full one when more
/// messages than the preserved tail exist, else reports the overflow. Reaching
/// the turn limit compacts (micro only for non-reactive checks), and so does
/// reaching the token limit.
pub open spec fn decision_spec(
    s: CompactSettings,
    len: int,
    e: TokenBudgetEstimate,
    reactive: bool,
) -> CompactDecision {
    if !s.enabled || (!reactive && !s.auto_compact) || (reactive && !s.reactive_compact) {
        CompactDecision::NoAction
    } else if e.remaining_budget == 0 {
        if s.enable_microcompact && len > preserved_count(0) {
            CompactDecision::MicroCompact
        } else if len > preserved_count(s.preserve_recent_turns) {
            CompactDecision::FullCompact
        } else {
            CompactDecision::RejectForOverflow
        }
    } else if len >= s.max_turns_before_compact {
        if s.enable_microcompact && !reactive {
            CompactDecision::MicroCompact
        } else {
            CompactDecision::FullCompact
        }
    } else if e.prompt_estimate + e.reserved_completion_budget >= s.max_tokens_before_compact {
        if s.enable_microcompact {
            CompactDecision::MicroCompact
        } else {
            CompactDecision::FullCompact
        }
    } else {
        CompactDecision::NoAction
    }
}

/// Whether a decision asks for a compaction.
pub open spec fn compacts(d: CompactDecision) -> bool {
    d == CompactDecision::MicroCompact || d == CompactDecision::FullCompact
}

/// How many trailing messages a compaction that keeps `turns` turns preserves.
pub fn preserved_message_count(turns: usize) -> (n: usize)
    ensures
        n == preserved_count(turns),
{
    let doubled = match turns.checked_mul(2) {
        Some(d) => d,
        None => usize::MAX,
    };
    if doubled < 1 {
        1
    } else {
        doubled
    }
}

/// Whether a message text is a compaction summary.
pub open spec fn is_compact_summary_spec(content: Seq<char>) -> bool {
    has_prefix(content, COMPACT_SUMMARY_PREFIX@) || has_prefix(
        content,
        MICRO_COMPACT_SUMMARY_PREFIX@,
    )
}

/// Whether a message text starts with one of the compaction summary prefixes.
pub fn is_compact_summary_content(content: &str) -> (b: bool)
    ensures
        b == is_compact_summary_spec(content@),
{
    starts_with_str(content, COMPACT_SUMMARY_PREFIX) || starts_with_str(
        content,
        MICRO_COMPACT_SUMMARY_PREFIX,
    )
}

proof fn lemma_calls_size_nonneg(calls: Seq<ToolCallView>)
    ensures
        calls_size(calls) >= 0,
    decreases calls.len(),
{
    if calls.len() > 0 {
        lemma_calls_size_nonneg(calls.drop_last());
    }
}

/// The byte length of a string.
fn byte_count(s: &String) -> (n: usize)
    ensures
        n == byte_len(s@),
{
    s.as_str().len()
}

/// The summed size of the names and argument texts of some tool calls.
fn calls_byte_size(calls: &Vec<RuntimeToolCall>) -> (n: usize)
    requires
        calls_size(crate::runtime::calls_view(calls@)) <= usize::MAX,
    ensures
        n == calls_size(crate::runtime::calls_view(calls@)),
{
    let ghost cv = crate::runtime::calls_view(calls@);
    let mut total: usize = 0;
    let mut i: usize = 0;
    while i < calls.len()
        invariant
            i <= calls.len(),
            cv == crate::runtime::calls_view(calls@),
            calls_size(cv) <= usize::MAX,
            total == calls_size(cv.subrange(0, i as int)),
        decreases calls.len() - i,
    {
        let ghost next = cv.subrange(0, i + 1);
        assert(next.drop_last() =~= cv.subrange(0, i as int));
        proof {
            lemma_calls_prefix_le(cv, i + 1);
        }
        let a = byte_count(&calls[i].name);
        let b = byte_count(&calls[i].arguments);
        total = total + a + b;
        i = i + 1;
    }
    assert(cv.subrange(0, calls.len() as int) =~= cv);
    total
}

proof fn lemma_calls_prefix_le(cv: Seq<ToolCallView>, k: int)
    requires
        0 <= k <= cv.len(),
    ensures
        calls_size(cv.subrange(0, k)) <= calls_size(cv),
    decreases cv.len() - k,
{
    if k < cv.len() {
        lemma_calls_prefix_le(cv, k + 1);
        assert(cv.subrange(0, k + 1).drop_last() =~= cv.subrange(0, k));
    } else {
        assert(cv.subrange(0, k) =~= cv);
    }
}

/// The token estimate of one message.
pub fn estimate_message_tokens(m: &RuntimeMessage) -> (n: usize)
    requires
        message_size(m@) <= usize::MAX,
    ensures
        n == message_tokens(m@),
{
    proof {
        lemma_calls_size_nonneg(m@.tool_calls);
    }
    let content_chars = chars_of(m.content.as_str()).len();
    let call_bytes = calls_byte_size(&m.tool_calls);
    let result_bytes = match &m.tool_result {
        Some(r) => byte_count(&r.name) + byte_count(&r.content),
        None => 0,
    };
    content_chars / 4 + call_bytes / 4 + result_bytes / 4 + 12
}

proof fn lemma_size_bounds(h: Seq<MessageView>)
    ensures
        0 <= history_tokens(h) <= history_size(h),
        0 <= tool_context_tokens(h) <= history_tokens(h),
        forall|k: int| 0 <= k <= h.len() ==> history_size(#[trigger] h.subrange(0, k)) <= history_size(h),
    decreases h.len(),
{
    if h.len() > 0 {
        lemma_size_bounds(h.drop_last());
        lemma_calls_size_nonneg(h.last().tool_calls);
        assert forall|k: int| 0 <= k <= h.len() implies history_size(#[trigger] h.subrange(0, k))
            <= history_size(h) by {
            if k < h.len() {
                assert(h.drop_last().subrange(0, k) =~= h.subrange(0, k));
            } else {
                assert(h.subrange(0, k) =~= h);
            }
        }
    }
}

/// The token estimate of `h[from..]` together with that of its tool-carrying
/// messages, when `from == 0`.
fn history_tokens_from(h: &Vec<RuntimeMessage>, from: usize) -> (n: usize)
    requires
        from <= h.len(),
        history_size(messages_view(h@)) <= usize::MAX,
    ensures
        n == history_tokens(messages_view(h@).skip(from as int)),
{
    let ghost hv = messages_view(h@);
    let ghost tail = hv.skip(from as int);
    proof {
        lemma_size_bounds(hv);
        lemma_skip_size(hv, from as int);
    }
    let mut total: usize = 0;
    let mut i: usize = from;
    while i < h.len()
        invariant
            from <= i <= h.len(),
            hv == messages_view(h@),
            tail == hv.skip(from as int),
            history_size(tail) <= usize::MAX,
            total == history_tokens(tail.subrange(0, i - from)),
        decreases h.len() - i,
    {
        let ghost next = tail.subrange(0, i + 1 - from);
        assert(next.drop_last() =~= tail.subrange(0, i - from));
        assert(next.last() == hv[i as int]);
        proof {
            lemma_size_bounds(tail);
            lemma_size_bounds(next);
            lemma_size_bounds(next.drop_last());
            assert(history_size(next) <= history_size(tail));
            assert(h@[i as int]@ == hv[i as int]);
        }
        let t = estimate_message_tokens(&h[i]);
        total = total + t;
        i = i + 1;
    }
    assert(tail.subrange(0, h.len() - from) =~= tail);
    total
}

proof fn lemma_skip_size(h: Seq<MessageView>, from: int)
    requires
        0 <= from <= h.len(),
    ensures
        history_size(h.skip(from)) <= history_size(h),
    decreases h.len(),
{
    if from < h.len() {
        lemma_skip_size(h.drop_last(), from);
        assert(h.skip(from).drop_last() =~= h.drop_last().skip(from));
        lemma_calls_size_nonneg(h.last().tool_calls);
    } else {
        assert(h.skip(from).len() == 0);
        lemma_size_bounds(h);
    }
}

/// The token estimate of the tool-carrying messages of `h`.
fn tool_context_estimate(h: &Vec<RuntimeMessage>) -> (n: usize)
    requires
        history_size(messages_view(h@)) <= usize::MAX,
    ensures
        n == tool_context_tokens(messages_view(h@)),
{
    let ghost hv = messages_view(h@);
    let mut total: usize = 0;
    let mut i: usize = 0;
    while i < h.len()
        invariant
            i <= h.len(),
            hv == messages_view(h@),
            history_size(hv) <= usize::MAX,
            total == tool_context_tokens(hv.subrange(0, i as int)),
        decreases h.len() - i,
    {
        let ghost next = hv.subrange(0, i + 1);
        assert(next.drop_last() =~= hv.subrange(0, i as int));
        proof {
            lemma_size_bounds(hv);
            lemma_size_bounds(next);
            lemma_size_bounds(next.drop_last());
            assert(next.last() == hv[i as int]);
            assert(h@[i as int]@ == hv[i as int]);
        }
        if h[i].has_tool_calls() || h[i].tool_result.is_some() {
            let t = estimate_message_tokens(&h[i]);
            total = total + t;
        }
        i = i + 1;
    }
    assert(hv.subrange(0, h.len() as int) =~= hv);
    total
}

/// The compaction policy; it decides from the compaction settings alone.
#[derive(Debug)]
pub struct CompactService {
    settings: CompactSettings,
}

impl CompactService {
    /// A service deciding by `settings`.
    pub fn from_compact_settings(settings: CompactSettings) -> (s: Self)
        ensures
            s.compact_settings() == settings,
    {
        CompactService { settings }
    }

    /// The settings this service decides by.
    pub closed spec fn compact_settings(&self) -> CompactSettings {
        self.settings
    }

    /// The token-budget estimate of `history`.
    pub fn estimate_token_budget(&self, history: &Vec<RuntimeMessage>, usage_total_tokens: Option<usize>) -> (e: TokenBudgetEstimate)
        requires
            history_size(messages_view(history@)) <= usize::MAX,
        ensures
            e == budget_spec(self.compact_settings(), messages_view(history@), usage_total_tokens),
    {
        let ghost hv = messages_view(history@);
        proof {
            lemma_size_bounds(hv);
            assert(hv.skip(0) =~= hv);
        }
        let prompt_estimate = match usage_total_tokens {
            Some(u) => u,
            None => history_tokens_from(history, 0),
        };
        let preserved = preserved_message_count(self.settings.preserve_recent_turns);
        let recent_start = if history.len() > preserved { history.len() - preserved } else { 0 };
        let recent_turns_estimate = history_tokens_from(history, recent_start);
        let tool = tool_context_estimate(history);
        let reserved = self.settings.reserved_completion_budget;
        let consumed = prompt_estimate.saturating_add(reserved);
        let remaining = self.settings.max_tokens_before_compact.saturating_sub(consumed);
        TokenBudgetEstimate {
            prompt_estimate,
            recent_turns_estimate,
            tool_context_estimate: tool,
            reserved_completion_budget: reserved,
            remaining_budget: remaining,
        }
    }

    /// The compaction decision for `history`.
    pub fn compact_decision(&self, history: &Vec<RuntimeMessage>, usage_total_tokens: Option<usize>, reactive: bool) -> (d: CompactDecision)
        requires
            history_size(messages_view(history@)) <= usize::MAX,
            budget_spec(self.compact_settings(), messages_view(history@), usage_total_tokens).prompt_estimate
                + self.compact_settings().reserved_completion_budget <= usize::MAX,
        ensures
            d == decision_spec(
                self.compact_settings(),
                history@.len() as int,
                budget_spec(self.compact_settings(), messages_view(history@), usage_total_tokens),
                reactive,
            ),
    {
        let s = &self.settings;
        if !s.enabled || (!reactive && !s.auto_compact) || (reactive && !s.reactive_compact) {
            return CompactDecision::NoAction;
        }
        let estimate = self.estimate_token_budget(history, usage_total_tokens);
        if estimate.remaining_budget == 0 {
            return if s.enable_microcompact && history.len() > preserved_message_count(0) {
                CompactDecision::MicroCompact
            } else if history.len() > preserved_message_count(s.preserve_recent_turns) {
                CompactDecision::FullCompact
            } else {
                CompactDecision::RejectForOverflow
            };
        }
        if history.len() >= s.max_turns_before_compact {
            return if s.enable_microcompact && !reactive {
                CompactDecision::MicroCompact
            } else {
                CompactDecision::FullCompact
            };
        }
        if estimate.prompt_estimate + estimate.reserved_completion_budget
            >= s.max_tokens_before_compact {
            return if s.enable_microcompact {
                CompactDecision::MicroCompact
            } else {
                CompactDecision::FullCompact
            };
        }
        CompactDecision::NoAction
    }
}

impl CompactService {
    /// Whether an automatic check after a completed turn calls for
    /// compaction: the history reached a threshold, or it is over budget
    /// (even when too short to be compacted).
    pub fn should_auto_compact(&self, history: &Vec<RuntimeMessage>, usage_total_tokens: Option<usize>) -> (b: bool)
        requires
            history_size(messages_view(history@)) <= usize::MAX,
            budget_spec(self.compact_settings(), messages_view(history@), usage_total_tokens).prompt_estimate
                + self.compact_settings().reserved_completion_budget <= usize::MAX,
        ensures
            b == (decision_spec(
                self.compact_settings(),
                history@.len() as int,
                budget_spec(self.compact_settings(), messages_view(history@), usage_total_tokens),
                false,
            ) != CompactDecision::NoAction),
    {
        let d = self.compact_decision(history, usage_total_tokens, false);
        d != CompactDecision::NoAction
    }

    /// The decision for `history` with a pending message appended, checked
    /// before the message is sent.
    pub fn reactive_compact_decision(&self, history: &Vec<RuntimeMessage>, pending_message: Option<&RuntimeMessage>) -> (d: CompactDecision)
        requires
            history_size(pending_view(messages_view(history@), pending_message)) <= usize::MAX,
            history_tokens(pending_view(messages_view(history@), pending_message))
                + self.compact_settings().reserved_completion_budget <= usize::MAX,
        ensures
            d == decision_spec(
                self.compact_settings(),
                pending_view(messages_view(history@), pending_message).len() as int,
                budget_spec(
                    self.compact_settings(),
                    pending_view(messages_view(history@), pending_message),
                    None,
                ),
                true,
            ),
    {
        let combined = history_with_pending_message(history, pending_message);
        proof {
            lemma_size_bounds(messages_view(combined@));
        }
        self.compact_decision(&combined, None, true)
    }

    /// Whether a reactive check before sending `pending_message` would
    /// compact; never when compaction or reactive compaction is disabled.
    pub fn should_reactive_compact(&self, history: &Vec<RuntimeMessage>, pending_message: Option<&RuntimeMessage>) -> (b: bool)
        requires
            history_size(pending_view(messages_view(history@), pending_message)) <= usize::MAX,
            history_tokens(pending_view(messages_view(history@), pending_message))
                + self.compact_settings().reserved_completion_budget <= usize::MAX,
        ensures
            b == compacts(
                decision_spec(
                    self.compact_settings(),
                    pending_view(messages_view(history@), pending_message).len() as int,
                    budget_spec(
                        self.compact_settings(),
                        pending_view(messages_view(history@), pending_message),
                        None,
                    ),
                    true,
                ),
            ),
    {
        if !self.settings.enabled || !self.settings.reactive_compact {
            return false;
        }
        let d = self.reactive_compact_decision(history, pending_message);
        d == CompactDecision::MicroCompact || d == CompactDecision::FullCompact
    }

    /// Where to cut `history_len` messages for a compaction of kind
    /// `decision`: everything before the returned index is summarised, the
    /// rest kept. Fails when compaction is disabled or too few messages
    /// exist.
    pub fn compaction_split(&self, history_len: usize, decision: CompactDecision) -> (r: Result<usize, CompactError>)
        ensures
            !self.compact_settings().enabled ==> r == Err::<usize, CompactError>(CompactError::Disabled),
            self.compact_settings().enabled ==> match r {
                Ok(split) => history_len > kept_count(self.compact_settings(), decision) && split
                    == history_len - kept_count(self.compact_settings(), decision),
                Err(e) => e == CompactError::NotEnoughMessages && history_len <= kept_count(
                    self.compact_settings(),
                    decision,
                ),
            },
    {
        if !self.settings.enabled {
            return Err(CompactError::Disabled);
        }
        let preserved = match decision {
            CompactDecision::MicroCompact => preserved_message_count(0),
            _ => preserved_message_count(self.settings.preserve_recent_turns),
        };
        if history_len <= preserved {
            return Err(CompactError::NotEnoughMessages);
        }
        Ok(history_len - preserved)
    }
}

/// When the budget is used up, an overflow is refused only when nothing can
/// be compacted: a history longer than the tail a compaction keeps is
/// compacted (fully, when micro-compaction is off), and the refusal comes
/// only for a history no longer than that tail, on which
/// `compaction_split` fails with `NotEnoughMessages`.
pub proof fn law_overflow_refused_only_when_nothing_to_compact(
    s: CompactSettings,
    len: int,
    e: TokenBudgetEstimate,
    reactive: bool,
)
    ensures
        decision_spec(s, len, e, reactive) == CompactDecision::RejectForOverflow ==> {
            &&& e.remaining_budget == 0
            &&& len <= kept_count(s, CompactDecision::FullCompact)
            &&& (s.enable_microcompact ==> len <= kept_count(s, CompactDecision::MicroCompact))
        },
        (s.enabled && (if reactive { s.reactive_compact } else { s.auto_compact }) && e.remaining_budget == 0
            && len > kept_count(s, CompactDecision::FullCompact)) ==> {
            &&& compacts(decision_spec(s, len, e, reactive))
            &&& len > kept_count(s, decision_spec(s, len, e, reactive))
            &&& (!s.enable_microcompact ==> decision_spec(s, len, e, reactive) == CompactDecision::FullCompact)
        },
{
}

/// Within budget, a history that reached the turn threshold is compacted
/// (micro-compaction only on the automatic check when enabled), one whose
/// estimate plus the reserved completion budget reached the token
/// threshold is compacted too, and a history below both thresholds is left
/// alone; nothing is ever decided while compaction (or the kind of check
/// asked for) is switched off.
pub proof fn law_thresholds_decide(s: CompactSettings, len: int, e: TokenBudgetEstimate, reactive: bool)
    ensures
        (!s.enabled || (if reactive { !s.reactive_compact } else { !s.auto_compact })) ==> decision_spec(
            s,
            len,
            e,
            reactive,
        ) == CompactDecision::NoAction,
        (s.enabled && (if reactive { s.reactive_compact } else { s.auto_compact }) && e.remaining_budget > 0
            && len >= s.max_turns_before_compact) ==> decision_spec(s, len, e, reactive) == if s.enable_microcompact
            && !reactive {
            CompactDecision::MicroCompact
        } else {
            CompactDecision::FullCompact
        },
        (s.enabled && (if reactive { s.reactive_compact } else { s.auto_compact }) && e.remaining_budget > 0
            && len < s.max_turns_before_compact && e.prompt_estimate + e.reserved_completion_budget
            >= s.max_tokens_before_compact) ==> compacts(decision_spec(s, len, e, reactive)),
        (s.enabled && (if reactive { s.reactive_compact } else { s.auto_compact }) && e.remaining_budget > 0
            && len < s.max_turns_before_compact && e.prompt_estimate + e.reserved_completion_budget
            < s.max_tokens_before_compact) ==> decision_spec(s, len, e, reactive) == CompactDecision::NoAction,
{
}

/// How many trailing messages a compaction of kind `d` keeps.
pub open spec fn kept_count(s: CompactSettings, d: CompactDecision) -> int {
    match d {
        CompactDecision::MicroCompact => preserved_count(0),
        _ => preserved_count(s.preserve_recent_turns),
    }
}

/// Why a compaction could not run.
#[derive(Debug, Clone, Copy, PartialEq, Eq, Structural)]
pub enum CompactError {
    Disabled,
    NotEnoughMessages,
    EmptySummary,
}

impl CompactError {
    /// The error text shown to the user.
    pub fn message(&self) -> (s: &'static str)
        ensures
            *self == CompactError::Disabled ==> s@ == "Compact is disabled in settings"@,
            *self == CompactError::NotEnoughMessages ==> s@ == "Not enough messages to compact"@,
            *self == CompactError::EmptySummary ==> s@
                == "Compact response did not include summary text"@,
    {
        match self {
            CompactError::Disabled => "Compact is disabled in settings",
            CompactError::NotEnoughMessages => "Not enough messages to compact",
            CompactError::EmptySummary => "Compact response did not include summary text",
        }
    }
}

/// The history with the pending message (if any) appended.
pub open spec fn pending_view(h: Seq<MessageView>, pending: Option<&RuntimeMessage>) -> Seq<MessageView> {
    match pending {
        Some(m) => h.push(m@),
        None => h,
    }
}

/// A copy of `history` with `pending_message` appended when present.
pub fn history_with_pending_message(history: &Vec<RuntimeMessage>, pending_message: Option<&RuntimeMessage>) -> (r: Vec<RuntimeMessage>)
    ensures
        messages_view(r@) == pending_view(messages_view(history@), pending_message),
{
    let mut combined = crate::runtime::clone_messages(history);
    if let Some(m) = pending_message {
        let ghost before = messages_view(combined@);
        let c = m.clone();
        combined.push(c);
        assert(messages_view(combined@) =~= before.push(m@));
    }
    combined
}

/// The result of a compaction.
#[derive(Debug, Clone)]
pub struct CompactOutcome {
    pub history: Vec<RuntimeMessage>,
    pub summary: String,
    pub was_micro: bool,
}

/// The system message that stands for the summarised part of a history.
pub open spec fn summary_message_view(summary: Seq<char>, micro: bool) -> MessageView {
    MessageView {
        role: RuntimeRole::System,
        content: if micro {
            MICRO_COMPACT_SUMMARY_PREFIX@ + summary
        } else {
            COMPACT_SUMMARY_PREFIX@ + summary
        },
        tool_calls: Seq::empty(),
        tool_result: None,
    }
}

impl RuntimeMessage {
    /// The system message that records a full compaction summary.
    pub fn compact_summary(summary: String) -> (m: Self)
        ensures
            m@ == summary_message_view(summary@, false),
    {
        let m = RuntimeMessage::system(concat(COMPACT_SUMMARY_PREFIX, summary.as_str()));
        assert(m@.tool_calls =~= Seq::<ToolCallView>::empty());
        m
    }

    /// The system message that records a micro-compaction summary.
    pub fn micro_compact_summary(summary: String) -> (m: Self)
        ensures
            m@ == summary_message_view(summary@, true),
    {
        let m = RuntimeMessage::system(concat(MICRO_COMPACT_SUMMARY_PREFIX, summary.as_str()));
        assert(m@.tool_calls =~= Seq::<ToolCallView>::empty());
        m
    }

    /// Whether this is a system message holding a compaction summary.
    pub fn is_compact_summary(&self) -> (b: bool)
        ensures
            b == (self.role == RuntimeRole::System && is_compact_summary_spec(self.content@)),
    {
        self.role == RuntimeRole::System && is_compact_summary_content(self.content.as_str())
    }
}

/// The compacted history: the summary message followed by the kept tail
/// `history[split..]`.
pub fn assemble_compacted_history(history: &Vec<RuntimeMessage>, split: usize, summary: String, micro: bool) -> (r: Vec<RuntimeMessage>)
    requires
        split <= history.len(),
    ensures
        messages_view(r@) == seq![summary_message_view(summary@, micro)] + messages_view(
            history@,
        ).skip(split as int),
{
    let mut out: Vec<RuntimeMessage> = Vec::new();
    let first = if micro {
        RuntimeMessage::micro_compact_summary(summary)
    } else {
        RuntimeMessage::compact_summary(summary)
    };
    let ghost sv = first@;
    out.push(first);
    let mut i: usize = split;
    while i < history.len()
        invariant
            split <= i <= history.len(),
            messages_view(out@) == seq![sv] + messages_view(history@).subrange(
                split as int,
                i as int,
            ),
        decreases history.len() - i,
    {
        let ghost before = messages_view(out@);
        let c = history[i].clone();
        out.push(c);
        assert(messages_view(out@) =~= before.push(c@));
        i = i + 1;
        assert(seq![sv] + messages_view(history@).subrange(split as int, i as int) =~= (seq![sv]
            + messages_view(history@).subrange(split as int, i - 1)).push(history@[i - 1]@));
    }
    assert(messages_view(history@).subrange(split as int, history.len() as int)
        =~= messages_view(history@).skip(split as int));
    out
}

/// The token total a turn reported, if it reported usage.
pub open spec fn usage_total(u: Option<RuntimeUsage>) -> Option<usize> {
    match u {
        Some(x) => Some(x.total_tokens),
        None => None,
    }
}

impl CompactService {
    /// The automatic compaction a finished turn calls for: none unless the
    /// turn completed; otherwise the decision on its history and reported
    /// token total. Only a micro or full compaction is carried out.
    pub fn auto_compact_decision(&self, result: &QueryTurnResult) -> (d: CompactDecision)
        requires
            history_size(messages_view(result.history@)) <= usize::MAX,
            budget_spec(self.compact_settings(), messages_view(result.history@), usage_total(result.usage)).prompt_estimate
                + self.compact_settings().reserved_completion_budget <= usize::MAX,
        ensures
            d == if result.status != TurnStatus::Completed {
                CompactDecision::NoAction
            } else {
                decision_spec(
                    self.compact_settings(),
                    result.history@.len() as int,
                    budget_spec(self.compact_settings(), messages_view(result.history@), usage_total(result.usage)),
                    false,
                )
            },
    {
        if result.status != TurnStatus::Completed {
            return CompactDecision::NoAction;
        }
        let total = match &result.usage {
            Some(u) => Some(u.total_tokens),
            None => None,
        };
        self.compact_decision(&result.history, total, false)
    }
}

/// The summary a turn records for a compaction: marked `[micro] ` when the
/// compaction was a micro one.
pub open spec fn recorded_summary(summary: Seq<char>, micro: bool) -> Seq<char> {
    if micro {
        "[micro] "@ + summary
    } else {
        summary
    }
}

/// A finished turn after its automatic compaction: with a compaction
/// (`Some`), its history is the compacted one, it is marked compacted and
/// records the summary; a compaction that failed (`None`) leaves it as it
/// was.
pub fn with_auto_compaction(result: QueryTurnResult, outcome: Option<CompactOutcome>) -> (r: QueryTurnResult)
    ensures
        match outcome {
            None => r == result,
            Some(o) => {
                &&& r == (QueryTurnResult {
                    history: o.history,
                    was_compacted: true,
                    compaction_summary: r.compaction_summary,
                    ..result
                })
                &&& opt_view(r.compaction_summary) == Some(recorded_summary(o.summary@, o.was_micro))
            },
        },
{
    match outcome {
        None => result,
        Some(o) => {
            let summary = if o.was_micro {
                concat("[micro] ", o.summary.as_str())
            } else {
                o.summary
            };
            QueryTurnResult {
                history: o.history,
                was_compacted: true,
                compaction_summary: Some(summary),
                ..result
            }
        },
    }
}

/// The summary text of a model reply: its trimmed content, when not empty.
pub fn summary_from_reply(content: Option<&str>) -> (r: Result<String, CompactError>)
    ensures
        match content {
            Some(c) => if crate::text::trim(c@).len() > 0 {
                r matches Ok(s) && s@ == crate::text::trim(c@)
            } else {
                r == Err::<String, CompactError>(CompactError::EmptySummary)
            },
            None => r == Err::<String, CompactError>(CompactError::EmptySummary),
        },
{
    match content {
        Some(c) => {
            let t = crate::text::trim_str(c);
            if t.as_str().is_empty() {
                Err(CompactError::EmptySummary)
            } else {
                Ok(t)
            }
        },
        None => Err(CompactError::EmptySummary),
    }
}

/// The transcript text of the tool calls of a message.
pub open spec fn render_calls(calls: Seq<ToolCallView>) -> Seq<char>
    decreases calls.len(),
{
    if calls.len() == 0 {
        Seq::empty()
    } else {
        render_calls(calls.drop_last()) + "\nassistant_tool_call: "@ + calls.last().name + " "@
            + calls.last().arguments
    }
}

/// The transcript text of one message.
pub open spec fn render_message(m: MessageView) -> Seq<char> {
    crate::runtime::role_name(m.role) + ": "@ + crate::text::trim(m.content) + render_calls(
        m.tool_calls,
    ) + match m.tool_result {
        Some(r) => "\ntool_result: "@ + r.name + " => "@ + crate::text::trim(r.content),
        None => Seq::empty(),
    } + "\n\n"@
}

/// The transcript text of a history.
pub open spec fn render_spec(h: Seq<MessageView>) -> Seq<char>
    decreases h.len(),
{
    if h.len() == 0 {
        Seq::empty()
    } else {
        render_spec(h.drop_last()) + render_message(h.last())
    }
}

fn render_message_exec(m: &RuntimeMessage, out: &mut String)
    ensures
        final(out)@ == old(out)@ + render_message(m@),
{
    let ghost start = out@;
    out.append(m.role.as_str());
    out.append(": ");
    let t = crate::text::trim_str(m.content.as_str());
    out.append(t.as_str());
    let ghost mid = out@;
    let mut i: usize = 0;
    while i < m.tool_calls.len()
        invariant
            i <= m.tool_calls.len(),
            out@ == mid + render_calls(crate::runtime::calls_view(m.tool_calls@).subrange(
                0,
                i as int,
            )),
        decreases m.tool_calls.len() - i,
    {
        let ghost cv = crate::runtime::calls_view(m.tool_calls@);
        assert(cv.subrange(0, i + 1).drop_last() =~= cv.subrange(0, i as int));
        out.append("\nassistant_tool_call: ");
        out.append(m.tool_calls[i].name.as_str());
        out.append(" ");
        out.append(m.tool_calls[i].arguments.as_str());
        i = i + 1;
    }
    assert(crate::runtime::calls_view(m.tool_calls@).subrange(0, m.tool_calls.len() as int)
        =~= crate::runtime::calls_view(m.tool_calls@));
    match &m.tool_result {
        Some(r) => {
            out.append("\ntool_result: ");
            out.append(r.name.as_str());
            out.append(" => ");
            let rc = crate::text::trim_str(r.content.as_str());
            out.append(rc.as_str());
        },
        None => {},
    }
    out.append("\n\n");
    assert(out@ =~= start + render_message(m@));
}

/// The transcript text of a history, one block per message.
pub fn render_history(history: &Vec<RuntimeMessage>) -> (r: String)
    ensures
        r@ == render_spec(messages_view(history@)),
{
    let ghost hv = messages_view(history@);
    let mut out = String::new();
    let mut i: usize = 0;
    while i < history.len()
        invariant
            i <= history.len(),
            hv == messages_view(history@),
            out@ == render_spec(hv.subrange(0, i as int)),
        decreases history.len() - i,
    {
        assert(hv.subrange(0, i + 1).drop_last() =~= hv.subrange(0, i as int));
        render_message_exec(&history[i], &mut out);
        i = i + 1;
    }
    assert(hv.subrange(0, history.len() as int) =~= hv);
    out
}

/// The system instruction of a compaction request.
pub open spec fn compact_system_text() -> Seq<char> {
    "You are compacting a coding-assistant transcript. Produce a concise structured summary for continuing work later. Focus on goals, constraints, completed work, pending work, important facts, and blockers. Do not include filler or conversational framing."@
}

/// The opening of a compaction request's user message.
pub open spec fn compact_user_intro() -> Seq<char> {
    "Summarize the following conversation for future continuation.\n\nUse sections:\n- Goal\n- Constraints\n- Completed\n- Pending\n- Important Context\n- Risks\n\nTranscript:\n"@
}

/// The (system, user) texts of a compaction request for `history`, with the
/// trimmed extra instructions appended when they are not blank.
pub fn build_compact_messages(history: &Vec<RuntimeMessage>, instructions: Option<&str>) -> (r: (String, String))
    ensures
        r.0@ == compact_system_text(),
        r.1@ == compact_user_intro() + render_spec(messages_view(history@)) + match instructions {
            Some(i) => if crate::text::trim(i@).len() > 0 {
                "\n\nAdditional instructions:\n"@ + crate::text::trim(i@)
            } else {
                Seq::empty()
            },
            None => Seq::empty(),
        },
{
    let system = String::from_str(
        "You are compacting a coding-assistant transcript. Produce a concise structured summary for continuing work later. Focus on goals, constraints, completed work, pending work, important facts, and blockers. Do not include filler or conversational framing.",
    );
    let mut user = String::from_str(
        "Summarize the following conversation for future continuation.\n\nUse sections:\n- Goal\n- Constraints\n- Completed\n- Pending\n- Important Context\n- Risks\n\nTranscript:\n",
    );
    let rendered = render_history(history);
    user.append(rendered.as_str());
    let ghost base = user@;
    match instructions {
        Some(i) => {
            let t = crate::text::trim_str(i);
            if !t.as_str().is_empty() {
                user.append("\n\nAdditional instructions:\n");
                user.append(t.as_str());
            }
        },
        None => {},
    }
    assert(user@ =~= base + match instructions {
        Some(i) => if crate::text::trim(i@).len() > 0 {
            "\n\nAdditional instructions:\n"@ + crate::text::trim(i@)
        } else {
            Seq::empty()
        },
        None => Seq::empty(),
    });
    (system, user)
}

/// Compaction never happens while it is disabled in the settings.
pub proof fn law_disabled_never_compacts(s: CompactSettings, len: int, e: TokenBudgetEstimate, reactive: bool)
    requires
        !s.enabled,
    ensures
        decision_spec(s, len, e, reactive) == CompactDecision::NoAction,
{
}

/// A compaction keeps exactly the preserved tail and puts one summary
/// message in front of it, so the compacted history has `kept + 1` entries.
pub proof fn law_compacted_length(h: Seq<MessageView>, s: CompactSettings, d: CompactDecision, summary: Seq<char>, micro: bool)
    requires
        h.len() > kept_count(s, d),
    ensures
        (seq![summary_message_view(summary, micro)] + h.skip(h.len() - kept_count(s, d))).len()
            == kept_count(s, d) + 1,
{
}

} // verus!
