//! Decoding of streamed chat replies: the framing of server-sent events
//! into lines, what each line means, and the folding of OpenAI-style
//! chunks into one reply.

use vstd::prelude::*;
use crate::api::{StreamChoice, StreamChunk, StreamDeltaToolCall, Usage};
use crate::numbers::{decimal, i64_to_string, signed_decimal, usize_to_string};
use crate::runtime::{calls_view, RuntimeToolCall, ToolCallView};
use crate::text::{
    chars_of, clone_opt, concat, has_char, has_prefix, is_blank_str, opt_view, starts_with_str,
    string_of_range, trim, trim_str, vec_is, views,
};

verus! {

// ---------------------------------------------------------------------
// Framing

/// Text received from a stream and not yet taken as a line.
pub struct SseBuffer {
    pending: String,
}

impl View for SseBuffer {
    type V = Seq<char>;

    closed spec fn view(&self) -> Seq<char> {
        self.pending@
    }
}

impl SseBuffer {
    /// A buffer holding nothing.
    pub fn new() -> (b: Self)
        ensures
            b@ == Seq::<char>::empty(),
    {
        SseBuffer { pending: String::new() }
    }

    /// Appends received text.
    pub fn push_text(&mut self, text: &str)
        ensures
            final(self)@ == old(self)@ + text@,
    {
        self.pending.append(text);
    }

    /// Takes the text before the first line break, and the break itself,
    /// off the front of the buffer; `None` while no line is complete.
    pub fn next_line(&mut self) -> (r: Option<String>)
        ensures
            match r {
                Some(line) => {
                    &&& !has_char(line@, '\n')
                    &&& old(self)@ == line@ + seq!['\n'] + final(self)@
                },
                None => !has_char(old(self)@, '\n') && final(self)@ == old(self)@,
            },
    {
        let v = chars_of(self.pending.as_str());
        let mut k: usize = 0;
        while k < v.len() && v[k] != '\n'
            invariant
                k <= v.len(),
                forall|j: int| 0 <= j < k ==> #[trigger] v@[j] != '\n',
            decreases v.len() - k,
        {
            k = k + 1;
        }
        if k == v.len() {
            return None;
        }
        let line = string_of_range(&v, 0, k);
        let rest = string_of_range(&v, k + 1, v.len());
        assert(v@ =~= line@ + seq!['\n'] + rest@);
        self.pending = rest;
        Some(line)
    }

    /// The text not yet taken.
    pub fn pending_text(&self) -> (s: &str)
        ensures
            s@ == self@,
    {
        self.pending.as_str()
    }
}

/// What one line of an event stream says.
#[derive(Debug, PartialEq, Eq)]
pub enum SseLine {
    /// Nothing to act on.
    Skip,
    /// The end-of-stream marker.
    Done,
    /// The name of the event that the next payloads belong to.
    Event(String),
    /// The JSON text of a `data:` line.
    Payload(String),
}

/// The mathematical value of an `SseLine`.
pub enum SseLineView {
    Skip,
    Done,
    Event(Seq<char>),
    Payload(Seq<char>),
}

impl View for SseLine {
    type V = SseLineView;

    open spec fn view(&self) -> SseLineView {
        match self {
            SseLine::Skip => SseLineView::Skip,
            SseLine::Done => SseLineView::Done,
            SseLine::Event(e) => SseLineView::Event(e@),
            SseLine::Payload(p) => SseLineView::Payload(p@),
        }
    }
}

/// A line of an OpenAI-style stream: trimmed, it is a payload when it
/// starts with `data: `, and the payload `[DONE]` ends the stream; any
/// other line is skipped.
pub open spec fn openai_line_spec(line: Seq<char>) -> SseLineView {
    let t = trim(line);
    if t.len() == 0 || !has_prefix(t, "data: "@) {
        SseLineView::Skip
    } else if t.subrange(6, t.len() as int) == "[DONE]"@ {
        SseLineView::Done
    } else {
        SseLineView::Payload(t.subrange(6, t.len() as int))
    }
}

/// The meaning of one line of an OpenAI-style stream.
pub fn openai_line(line: &str) -> (r: SseLine)
    ensures
        r@ == openai_line_spec(line@),
{
    proof {
        reveal_strlit("data: ");
        reveal_strlit("[DONE]");
    }
    let t = trim_str(line);
    let v = chars_of(t.as_str());
    if v.len() == 0 || !starts_with_str(t.as_str(), "data: ") {
        return SseLine::Skip;
    }
    let payload = string_of_range(&v, 6, v.len());
    let pv = chars_of(payload.as_str());
    if vec_is(&pv, "[DONE]") {
        SseLine::Done
    } else {
        SseLine::Payload(payload)
    }
}

/// A line of an Anthropic-style stream: without its trailing `\r`, an
/// empty line is skipped, `event: ` names the event, `data: ` carries a
/// payload unless the payload is `[DONE]`; any other line is skipped.
pub open spec fn anthropic_line_spec(line: Seq<char>) -> SseLineView {
    let raw = crate::markdown::strip_trail(line, '\r');
    if raw.len() == 0 {
        SseLineView::Skip
    } else if has_prefix(raw, "event: "@) {
        SseLineView::Event(raw.subrange(7, raw.len() as int))
    } else if has_prefix(raw, "data: "@) {
        if raw.subrange(6, raw.len() as int) == "[DONE]"@ {
            SseLineView::Skip
        } else {
            SseLineView::Payload(raw.subrange(6, raw.len() as int))
        }
    } else {
        SseLineView::Skip
    }
}

/// The meaning of one line of an Anthropic-style stream.
pub fn anthropic_line(line: &str) -> (r: SseLine)
    ensures
        r@ == anthropic_line_spec(line@),
{
    proof {
        reveal_strlit("event: ");
        reveal_strlit("data: ");
        reveal_strlit("[DONE]");
    }
    let raw = crate::markdown::strip_trail_str(line, '\r');
    let v = chars_of(raw.as_str());
    if v.len() == 0 {
        return SseLine::Skip;
    }
    if starts_with_str(raw.as_str(), "event: ") {
        return SseLine::Event(string_of_range(&v, 7, v.len()));
    }
    if starts_with_str(raw.as_str(), "data: ") {
        let payload = string_of_range(&v, 6, v.len());
        let pv = chars_of(payload.as_str());
        if vec_is(&pv, "[DONE]") {
            return SseLine::Skip;
        }
        return SseLine::Payload(payload);
    }
    SseLine::Skip
}

// ---------------------------------------------------------------------
// Tool calls assembled from fragments

/// Why one attempt at a request failed, and whether the next target may
/// be tried.
#[derive(Debug)]
pub struct AttemptFailure {
    pub message: String,
    pub eligible_for_fallback: bool,
}

/// A tool call being assembled from streamed fragments; `index` is the
/// position the model gave it.
#[derive(Debug)]
pub struct StreamingToolCall {
    pub index: usize,
    pub id: String,
    pub name: String,
    pub arguments: String,
}

/// The mathematical value of a `StreamingToolCall`.
pub struct PartialCallView {
    pub index: usize,
    pub id: Seq<char>,
    pub name: Seq<char>,
    pub arguments: Seq<char>,
}

impl View for StreamingToolCall {
    type V = PartialCallView;

    open spec fn view(&self) -> PartialCallView {
        PartialCallView {
            index: self.index,
            id: self.id@,
            name: self.name@,
            arguments: self.arguments@,
        }
    }
}

/// The views of a list of partial tool calls.
pub open spec fn partials_view(v: Seq<StreamingToolCall>) -> Seq<PartialCallView> {
    v.map_values(|c: StreamingToolCall| c@)
}

/// The function name a fragment carries, if any.
pub open spec fn delta_name(d: StreamDeltaToolCall) -> Option<Seq<char>> {
    match d.function {
        Some(f) => opt_view(f.name),
        None => None,
    }
}

/// The piece of argument text a fragment carries, if any.
pub open spec fn delta_arguments(d: StreamDeltaToolCall) -> Option<Seq<char>> {
    match d.function {
        Some(f) => opt_view(f.arguments),
        None => None,
    }
}

/// A call with nothing known of it but its position.
pub open spec fn empty_call(index: usize) -> PartialCallView {
    PartialCallView { index, id: Seq::empty(), name: Seq::empty(), arguments: Seq::empty() }
}

/// A fragment applied to the call at its position (or to an empty one):
/// an id or a name it carries replaces the old one, argument text it
/// carries is appended.
pub open spec fn merged_call(prev: Option<PartialCallView>, d: StreamDeltaToolCall) -> PartialCallView {
    let base = match prev {
        Some(c) => c,
        None => empty_call(d.index),
    };
    PartialCallView {
        index: d.index,
        id: match opt_view(d.id) {
            Some(i) => i,
            None => base.id,
        },
        name: match delta_name(d) {
            Some(n) => n,
            None => base.name,
        },
        arguments: match delta_arguments(d) {
            Some(a) => base.arguments + a,
            None => base.arguments,
        },
    }
}

/// How many calls at the front of `s` have a position below `k`.
pub open spec fn lower_bound(s: Seq<PartialCallView>, k: usize) -> nat
    decreases s.len(),
{
    if s.len() == 0 || s[0].index >= k {
        0
    } else {
        1 + lower_bound(s.drop_first(), k)
    }
}

/// A fragment applied to a list of calls kept in order of position: the
/// call at its position is updated, or a new call is put where its
/// position belongs.
pub open spec fn insert_delta(s: Seq<PartialCallView>, d: StreamDeltaToolCall) -> Seq<PartialCallView> {
    let p = lower_bound(s, d.index) as int;
    if p < s.len() && s[p].index == d.index {
        s.update(p, merged_call(Some(s[p]), d))
    } else {
        s.insert(p, merged_call(None, d))
    }
}

/// Fragments applied one after another.
pub open spec fn insert_deltas(s: Seq<PartialCallView>, ds: Seq<StreamDeltaToolCall>) -> Seq<PartialCallView>
    decreases ds.len(),
{
    if ds.len() == 0 {
        s
    } else {
        insert_delta(insert_deltas(s, ds.drop_last()), ds.last())
    }
}

/// Positions strictly increase along the list: each position occurs once.
pub open spec fn ordered_calls(s: Seq<PartialCallView>) -> bool {
    forall|i: int, j: int| 0 <= i < j < s.len() ==> s[i].index < s[j].index
}

/// The call at position `k`, if the list has one.
pub open spec fn call_at(s: Seq<PartialCallView>, k: usize) -> Option<PartialCallView> {
    if exists|i: int| 0 <= i < s.len() && s[i].index == k {
        Some(s[choose|i: int| 0 <= i < s.len() && s[i].index == k])
    } else {
        None
    }
}

proof fn lemma_lower_bound(s: Seq<PartialCallView>, k: usize, i: int)
    requires
        0 <= i <= s.len(),
        forall|j: int| 0 <= j < i ==> #[trigger] s[j].index < k,
        i == s.len() || s[i].index >= k,
    ensures
        lower_bound(s, k) == i,
    decreases i,
{
    if i > 0 {
        let t = s.drop_first();
        assert forall|j: int| 0 <= j < i - 1 implies #[trigger] t[j].index < k by {
            assert(t[j] == s[j + 1]);
        }
        lemma_lower_bound(t, k, i - 1);
    }
}

proof fn lemma_lower_bound_ordered(s: Seq<PartialCallView>, k: usize)
    requires
        ordered_calls(s),
    ensures
        0 <= lower_bound(s, k) <= s.len(),
        forall|j: int| 0 <= j < lower_bound(s, k) ==> #[trigger] s[j].index < k,
        forall|j: int| lower_bound(s, k) <= j < s.len() ==> #[trigger] s[j].index >= k,
    decreases s.len(),
{
    if s.len() > 0 && s[0].index < k {
        let t = s.drop_first();
        lemma_lower_bound_ordered(t, k);
        assert forall|j: int| 0 <= j < lower_bound(s, k) implies #[trigger] s[j].index < k by {
            if j > 0 {
                assert(s[j] == t[j - 1]);
            }
        }
        assert forall|j: int| lower_bound(s, k) <= j < s.len() implies #[trigger] s[j].index >= k by {
            assert(s[j] == t[j - 1]);
        }
    } else if s.len() > 0 {
        assert forall|j: int| 0 <= j < s.len() implies #[trigger] s[j].index >= k by {
            if j > 0 {
                assert(s[0].index < s[j].index);
            }
        }
    }
}

proof fn lemma_call_at(s: Seq<PartialCallView>, i: int)
    requires
        ordered_calls(s),
        0 <= i < s.len(),
    ensures
        call_at(s, s[i].index) == Some(s[i]),
{
    let k = s[i].index;
    assert(exists|j: int| 0 <= j < s.len() && s[j].index == k);
    let c = choose|j: int| 0 <= j < s.len() && s[j].index == k;
    if c < i {
        assert(s[c].index < s[i].index);
    } else if c > i {
        assert(s[i].index < s[c].index);
    }
}

/// A fragment changes the call at its position and no other, and the list
/// stays in order of position with each position once: the call at the
/// fragment's position becomes the fragment applied to what was there.
pub proof fn law_fragment_updates_its_call(s: Seq<PartialCallView>, d: StreamDeltaToolCall)
    requires
        ordered_calls(s),
    ensures
        ordered_calls(insert_delta(s, d)),
        call_at(insert_delta(s, d), d.index) == Some(merged_call(call_at(s, d.index), d)),
        forall|k: usize| k != d.index ==> #[trigger] call_at(insert_delta(s, d), k) == call_at(s, k),
{
    let r = insert_delta(s, d);
    let p = lower_bound(s, d.index) as int;
    lemma_lower_bound_ordered(s, d.index);
    if p < s.len() && s[p].index == d.index {
        lemma_call_at(s, p);
        assert(ordered_calls(r)) by {
            assert forall|i: int, j: int| 0 <= i < j < r.len() implies r[i].index < r[j].index by {
                assert(r[i].index == s[i].index);
                assert(r[j].index == s[j].index);
            }
        }
        lemma_call_at(r, p);
        assert forall|k: usize| k != d.index implies #[trigger] call_at(r, k) == call_at(s, k) by {
            if exists|i: int| 0 <= i < s.len() && s[i].index == k {
                let i = choose|i: int| 0 <= i < s.len() && s[i].index == k;
                lemma_call_at(s, i);
                assert(i != p);
                assert(r[i] == s[i]);
                lemma_call_at(r, i);
            } else {
                assert forall|i: int| 0 <= i < r.len() implies r[i].index != k by {
                    if i != p {
                        assert(r[i] == s[i]);
                    }
                }
            }
        }
    } else {
        assert(forall|j: int| p <= j < s.len() ==> #[trigger] s[j].index > d.index) by {
            assert forall|j: int| p <= j < s.len() implies #[trigger] s[j].index > d.index by {
                if j > p {
                    assert(s[p].index < s[j].index);
                }
            }
        }
        assert forall|i: int| 0 <= i < r.len() implies #[trigger] r[i] == (if i < p {
            s[i]
        } else if i == p {
            merged_call(None, d)
        } else {
            s[i - 1]
        }) by {}
        assert(ordered_calls(r)) by {
            assert forall|i: int, j: int| 0 <= i < j < r.len() implies r[i].index < r[j].index by {
                if i < p && j > p {
                    assert(s[i].index < d.index);
                    assert(s[j - 1].index > d.index);
                } else if i < p && j == p {
                    assert(s[i].index < d.index);
                } else if i == p {
                    assert(s[j - 1].index > d.index);
                } else if j > p && i > p {
                    assert(s[i - 1].index < s[j - 1].index);
                }
            }
        }
        assert(!exists|i: int| 0 <= i < s.len() && s[i].index == d.index) by {
            assert forall|i: int| 0 <= i < s.len() implies s[i].index != d.index by {
                if i < p {
                    assert(s[i].index < d.index);
                } else {
                    assert(s[i].index > d.index);
                }
            }
        }
        lemma_call_at(r, p);
        assert forall|k: usize| k != d.index implies #[trigger] call_at(r, k) == call_at(s, k) by {
            if exists|i: int| 0 <= i < s.len() && s[i].index == k {
                let i = choose|i: int| 0 <= i < s.len() && s[i].index == k;
                lemma_call_at(s, i);
                let ri = if i < p { i } else { i + 1 };
                assert(r[ri] == s[i]);
                lemma_call_at(r, ri);
            } else {
                assert forall|i: int| 0 <= i < r.len() implies r[i].index != k by {
                    if i < p {
                        assert(r[i] == s[i]);
                    } else if i > p {
                        assert(r[i] == s[i - 1]);
                    }
                }
            }
        }
    }
}

fn merge_into(prev: &StreamingToolCall, d: &StreamDeltaToolCall) -> (r: StreamingToolCall)
    ensures
        r@ == merged_call(Some(prev@), *d),
{
    let id = match &d.id {
        Some(i) => i.clone(),
        None => prev.id.clone(),
    };
    let (name, arguments) = match &d.function {
        Some(f) => {
            let n = match &f.name {
                Some(n) => n.clone(),
                None => prev.name.clone(),
            };
            let a = match &f.arguments {
                Some(a) => concat(prev.arguments.as_str(), a.as_str()),
                None => prev.arguments.clone(),
            };
            (n, a)
        },
        None => (prev.name.clone(), prev.arguments.clone()),
    };
    StreamingToolCall { index: d.index, id, name, arguments }
}

/// Applies one fragment to calls kept in order of position.
pub fn merge_delta(calls: &mut Vec<StreamingToolCall>, d: &StreamDeltaToolCall)
    ensures
        partials_view(final(calls)@) == insert_delta(partials_view(old(calls)@), *d),
{
    let ghost s = partials_view(calls@);
    let mut p: usize = 0;
    while p < calls.len() && calls[p].index < d.index
        invariant
            p <= calls.len(),
            s == partials_view(calls@),
            forall|j: int| 0 <= j < p ==> #[trigger] s[j].index < d.index,
        decreases calls.len() - p,
    {
        p = p + 1;
    }
    proof {
        lemma_lower_bound(s, d.index, p as int);
    }
    if p < calls.len() && calls[p].index == d.index {
        let merged = merge_into(&calls[p], d);
        calls.set(p, merged);
        assert(partials_view(calls@) =~= s.update(p as int, merged_call(Some(s[p as int]), *d)));
    } else {
        let fresh = StreamingToolCall {
            index: d.index,
            id: String::new(),
            name: String::new(),
            arguments: String::new(),
        };
        let merged = merge_into(&fresh, d);
        assert(fresh@ == empty_call(d.index));
        calls.insert(p, merged);
        assert(partials_view(calls@) =~= s.insert(p as int, merged_call(None, *d)));
    }
}

// ---------------------------------------------------------------------
// OpenAI-style chunks

/// What has been gathered from an OpenAI-style stream so far.
pub struct OpenAiStreamState {
    pub content: String,
    pub finish_reason: Option<String>,
    pub response_id: String,
    pub object: String,
    pub created: i64,
    pub model: String,
    pub tool_calls: Vec<StreamingToolCall>,
}

/// The mathematical value of an `OpenAiStreamState`.
pub struct OpenAiStreamView {
    pub content: Seq<char>,
    pub finish_reason: Option<Seq<char>>,
    pub response_id: Seq<char>,
    pub object: Seq<char>,
    pub created: i64,
    pub model: Seq<char>,
    pub tool_calls: Seq<PartialCallView>,
}

impl View for OpenAiStreamState {
    type V = OpenAiStreamView;

    open spec fn view(&self) -> OpenAiStreamView {
        OpenAiStreamView {
            content: self.content@,
            finish_reason: opt_view(self.finish_reason),
            response_id: self.response_id@,
            object: self.object@,
            created: self.created,
            model: self.model@,
            tool_calls: partials_view(self.tool_calls@),
        }
    }
}

/// The text a choice adds to the reply, if it carries any.
pub open spec fn choice_text(c: StreamChoice) -> Option<Seq<char>> {
    opt_view(c.delta.content)
}

/// The tool-call fragments a choice carries.
pub open spec fn choice_deltas(c: StreamChoice) -> Seq<StreamDeltaToolCall> {
    match c.delta.tool_calls {
        Some(v) => v@,
        None => Seq::empty(),
    }
}

/// One choice applied: its text is appended, its fragments are applied,
/// and a finish reason it gives replaces the old one.
pub open spec fn apply_choice(st: OpenAiStreamView, c: StreamChoice) -> OpenAiStreamView {
    OpenAiStreamView {
        content: match choice_text(c) {
            Some(t) => st.content + t,
            None => st.content,
        },
        finish_reason: if c.finish_reason is Some {
            opt_view(c.finish_reason)
        } else {
            st.finish_reason
        },
        response_id: st.response_id,
        object: st.object,
        created: st.created,
        model: st.model,
        tool_calls: insert_deltas(st.tool_calls, choice_deltas(c)),
    }
}

/// Choices applied one after another.
pub open spec fn apply_choices(st: OpenAiStreamView, cs: Seq<StreamChoice>) -> OpenAiStreamView
    decreases cs.len(),
{
    if cs.len() == 0 {
        st
    } else {
        apply_choice(apply_choices(st, cs.drop_last()), cs.last())
    }
}

/// Until a response id is known, each chunk's id, object, creation time
/// and model are taken as the reply's.
pub open spec fn chunk_header(st: OpenAiStreamView, ch: StreamChunk) -> OpenAiStreamView {
    if st.response_id.len() == 0 {
        OpenAiStreamView {
            content: st.content,
            finish_reason: st.finish_reason,
            response_id: ch.id@,
            object: ch.object@,
            created: ch.created,
            model: ch.model@,
            tool_calls: st.tool_calls,
        }
    } else {
        st
    }
}

/// One chunk applied.
pub open spec fn apply_chunk_spec(st: OpenAiStreamView, ch: StreamChunk) -> OpenAiStreamView {
    apply_choices(chunk_header(st, ch), ch.choices@)
}

/// The texts a list of choices shows as they arrive, in order.
pub open spec fn choice_texts(cs: Seq<StreamChoice>) -> Seq<Seq<char>>
    decreases cs.len(),
{
    if cs.len() == 0 {
        Seq::empty()
    } else {
        match choice_text(cs.last()) {
            Some(t) => choice_texts(cs.drop_last()).push(t),
            None => choice_texts(cs.drop_last()),
        }
    }
}

/// Texts joined end to end.
pub open spec fn concat_all(ts: Seq<Seq<char>>) -> Seq<char>
    decreases ts.len(),
{
    if ts.len() == 0 {
        Seq::empty()
    } else {
        concat_all(ts.drop_last()) + ts.last()
    }
}

proof fn lemma_deltas_ordered(s: Seq<PartialCallView>, ds: Seq<StreamDeltaToolCall>)
    requires
        ordered_calls(s),
    ensures
        ordered_calls(insert_deltas(s, ds)),
    decreases ds.len(),
{
    if ds.len() > 0 {
        lemma_deltas_ordered(s, ds.drop_last());
        law_fragment_updates_its_call(insert_deltas(s, ds.drop_last()), ds.last());
    }
}

proof fn lemma_choices_ordered(st: OpenAiStreamView, cs: Seq<StreamChoice>)
    requires
        ordered_calls(st.tool_calls),
    ensures
        ordered_calls(apply_choices(st, cs).tool_calls),
    decreases cs.len(),
{
    if cs.len() > 0 {
        lemma_choices_ordered(st, cs.drop_last());
        lemma_deltas_ordered(apply_choices(st, cs.drop_last()).tool_calls, choice_deltas(cs.last()));
    }
}

proof fn lemma_choices_text(st: OpenAiStreamView, cs: Seq<StreamChoice>)
    ensures
        apply_choices(st, cs).content == st.content + concat_all(choice_texts(cs)),
    decreases cs.len(),
{
    if cs.len() == 0 {
        assert(st.content + Seq::<char>::empty() =~= st.content);
    } else {
        lemma_choices_text(st, cs.drop_last());
        let prev = apply_choices(st, cs.drop_last());
        match choice_text(cs.last()) {
            Some(t) => {
                let prior = choice_texts(cs.drop_last());
                assert(choice_texts(cs) == prior.push(t));
                assert(prior.push(t).drop_last() =~= prior);
                assert(concat_all(choice_texts(cs)) == concat_all(prior) + t);
                assert(prev.content + t =~= st.content + (concat_all(choice_texts(cs.drop_last()))
                    + t));
            },
            None => {},
        }
    }
}

/// What a stream shows as it arrives is what the reply holds: after a
/// chunk, the reply's text is the old text followed by the texts shown
/// for that chunk, and the tool calls stay in order of position, each
/// position once.
pub proof fn law_shown_text_is_reply_text(st: OpenAiStreamView, ch: StreamChunk)
    requires
        ordered_calls(st.tool_calls),
    ensures
        apply_chunk_spec(st, ch).content == st.content + concat_all(choice_texts(ch.choices@)),
        ordered_calls(apply_chunk_spec(st, ch).tool_calls),
{
    lemma_choices_text(chunk_header(st, ch), ch.choices@);
    lemma_choices_ordered(chunk_header(st, ch), ch.choices@);
}

impl OpenAiStreamState {
    /// Nothing gathered yet; `model` and `created` stand until a chunk
    /// names its own.
    pub fn new(model: String, created: i64) -> (st: Self)
        ensures
            st@.content == Seq::<char>::empty(),
            st@.finish_reason is None,
            st@.response_id == Seq::<char>::empty(),
            st@.object == "chat.completion.chunk"@,
            st@.created == created,
            st@.model == model@,
            st@.tool_calls == Seq::<PartialCallView>::empty(),
    {
        let st = OpenAiStreamState {
            content: String::new(),
            finish_reason: None,
            response_id: String::new(),
            object: String::from_str("chat.completion.chunk"),
            created,
            model,
            tool_calls: Vec::new(),
        };
        assert(partials_view(st.tool_calls@) =~= Seq::<PartialCallView>::empty());
        st
    }

    /// The tool calls are kept in order of position, each position once.
    pub open spec fn well_formed(&self) -> bool {
        ordered_calls(self@.tool_calls)
    }

    fn apply_fragments(&mut self, ds: &Vec<StreamDeltaToolCall>)
        ensures
            final(self)@ == (OpenAiStreamView {
                tool_calls: insert_deltas(old(self)@.tool_calls, ds@),
                ..old(self)@
            }),
    {
        let ghost start = partials_view(self.tool_calls@);
        let mut j: usize = 0;
        while j < ds.len()
            invariant
                j <= ds.len(),
                partials_view(self.tool_calls@) == insert_deltas(start, ds@.subrange(0, j as int)),
                self.content == old(self).content,
                self.finish_reason == old(self).finish_reason,
                self.response_id == old(self).response_id,
                self.object == old(self).object,
                self.created == old(self).created,
                self.model == old(self).model,
                start == partials_view(old(self).tool_calls@),
            decreases ds.len() - j,
        {
            merge_delta(&mut self.tool_calls, &ds[j]);
            assert(ds@.subrange(0, j + 1).drop_last() =~= ds@.subrange(0, j as int));
            j = j + 1;
        }
        assert(ds@.subrange(0, ds.len() as int) =~= ds@);
    }

    /// Applies one parsed chunk and gives back the texts to show, in order.
    pub fn apply_chunk(&mut self, chunk: &StreamChunk) -> (shown: Vec<String>)
        ensures
            final(self)@ == apply_chunk_spec(old(self)@, *chunk),
            views(shown@) == choice_texts(chunk.choices@),
            old(self).well_formed() ==> final(self).well_formed(),
            final(self)@.content == old(self)@.content + concat_all(views(shown@)),
    {
        proof {
            if old(self).well_formed() {
                law_shown_text_is_reply_text(old(self)@, *chunk);
            }
            lemma_choices_text(chunk_header(old(self)@, *chunk), chunk.choices@);
        }
        if self.response_id.as_str().is_empty() {
            self.response_id = chunk.id.clone();
            self.object = chunk.object.clone();
            self.created = chunk.created;
            self.model = chunk.model.clone();
        }
        let ghost header = self@;
        assert(header == chunk_header(old(self)@, *chunk));
        let mut shown: Vec<String> = Vec::new();
        let mut i: usize = 0;
        while i < chunk.choices.len()
            invariant
                i <= chunk.choices.len(),
                self@ == apply_choices(header, chunk.choices@.subrange(0, i as int)),
                views(shown@) == choice_texts(chunk.choices@.subrange(0, i as int)),
            decreases chunk.choices.len() - i,
        {
            let choice = &chunk.choices[i];
            let ghost sub = chunk.choices@.subrange(0, i + 1);
            assert(sub.drop_last() =~= chunk.choices@.subrange(0, i as int));
            assert(sub.last() == *choice);
            match &choice.delta.content {
                Some(text) => {
                    self.content.append(text.as_str());
                    let ghost before = views(shown@);
                    shown.push(text.clone());
                    assert(views(shown@) =~= before.push(text@));
                },
                None => {},
            }
            match &choice.delta.tool_calls {
                Some(ds) => {
                    self.apply_fragments(ds);
                },
                None => {
                    assert(insert_deltas(partials_view(self.tool_calls@), Seq::empty())
                        == partials_view(self.tool_calls@));
                },
            }
            if choice.finish_reason.is_some() {
                self.finish_reason = clone_opt(&choice.finish_reason);
            }
            i = i + 1;
        }
        assert(chunk.choices@.subrange(0, chunk.choices.len() as int) =~= chunk.choices@);
        shown
    }
}

// ---------------------------------------------------------------------
// Finishing a reply

/// What `serde_json` makes of a text read as one JSON document: the
/// document printed again as compact JSON, or the parser's message.
pub uninterp spec fn json_reformat(text: Seq<char>) -> Result<Seq<char>, Seq<char>>;

/// The view of a result of two strings.
pub open spec fn result_view(r: Result<String, String>) -> Result<Seq<char>, Seq<char>> {
    match r {
        Ok(s) => Ok(s@),
        Err(e) => Err(e@),
    }
}

/// Calls `serde_json::from_str::<serde_json::Value>` on `text` and prints
/// the value again with `to_string`, or gives the error's message. The
/// contract names the outcome `json_reformat(text)` and says no more:
/// which texts parse, how a value is printed and how an error is worded
/// are serde_json's. (Without its `preserve_order` feature serde_json
/// keeps object keys sorted, so the printing depends on the text alone.)
#[verifier::external_body]
pub(crate) fn reformat_json(text: &str) -> (r: Result<String, String>)
    ensures
        result_view(r) == json_reformat(text@),
{
    match serde_json::from_str::<serde_json::Value>(text) {
        Ok(value) => Ok(value.to_string()),
        Err(error) => Err(error.to_string()),
    }
}

/// The id of a finished call: its own, or `call_` and its position when
/// the stream gave none.
pub open spec fn call_id(c: PartialCallView) -> Seq<char> {
    if c.id.len() == 0 {
        "call_"@ + decimal(c.index as nat)
    } else {
        c.id
    }
}

/// The failure reported for arguments that are not JSON.
pub open spec fn arguments_failure(name: Seq<char>, error: Seq<char>) -> Seq<char> {
    "failed to parse streamed tool call arguments for "@ + name + ": "@ + error
}

/// A call finished, given what the JSON parser made of its arguments:
/// blank arguments become `{}`, parsed ones their compact text, and
/// arguments that do not parse fail the attempt.
pub open spec fn finalize_call_spec(c: PartialCallView, parsed: Result<Seq<char>, Seq<char>>) -> Result<
    ToolCallView,
    Seq<char>,
> {
    if trim(c.arguments).len() == 0 {
        Ok(ToolCallView { id: call_id(c), name: c.name, arguments: "{}"@ })
    } else {
        match parsed {
            Ok(a) => Ok(ToolCallView { id: call_id(c), name: c.name, arguments: a }),
            Err(e) => Err(arguments_failure(c.name, e)),
        }
    }
}

/// Finishes one call, given what the JSON parser made of its arguments.
pub fn finalize_with_arguments(call: &StreamingToolCall, parsed: Result<String, String>) -> (r: Result<
    RuntimeToolCall,
    AttemptFailure,
>)
    ensures
        match r {
            Ok(t) => finalize_call_spec(call@, result_view(parsed)) == Ok::<
                ToolCallView,
                Seq<char>,
            >(t@),
            Err(f) => finalize_call_spec(call@, result_view(parsed)) == Err::<
                ToolCallView,
                Seq<char>,
            >(f.message@) && f.eligible_for_fallback,
        },
{
    proof {
        reveal_strlit("call_");
        reveal_strlit("{}");
        reveal_strlit("failed to parse streamed tool call arguments for ");
        reveal_strlit(": ");
    }
    let id = if call.id.as_str().is_empty() {
        let n = usize_to_string(call.index);
        concat("call_", n.as_str())
    } else {
        call.id.clone()
    };
    if is_blank_str(call.arguments.as_str()) {
        return Ok(
            RuntimeToolCall { id, name: call.name.clone(), arguments: String::from_str("{}") },
        );
    }
    match parsed {
        Ok(a) => Ok(RuntimeToolCall { id, name: call.name.clone(), arguments: a }),
        Err(e) => {
            let mut m = String::from_str("failed to parse streamed tool call arguments for ");
            m.append(call.name.as_str());
            m.append(": ");
            m.append(e.as_str());
            Err(AttemptFailure { message: m, eligible_for_fallback: true })
        },
    }
}

/// Finishes one call: blank arguments become `{}`, other arguments go
/// through the JSON parser.
pub fn finalize_streaming_tool_call(call: &StreamingToolCall) -> (r: Result<
    RuntimeToolCall,
    AttemptFailure,
>)
    ensures
        match r {
            Ok(t) => finalize_call_spec(call@, json_reformat(call@.arguments)) == Ok::<
                ToolCallView,
                Seq<char>,
            >(t@),
            Err(f) => finalize_call_spec(call@, json_reformat(call@.arguments)) == Err::<
                ToolCallView,
                Seq<char>,
            >(f.message@) && f.eligible_for_fallback,
        },
{
    if is_blank_str(call.arguments.as_str()) {
        finalize_with_arguments(call, Ok(String::new()))
    } else {
        let parsed = reformat_json(call.arguments.as_str());
        finalize_with_arguments(call, parsed)
    }
}

/// The calls finished in order; the first that fails fails them all.
pub open spec fn finalize_calls_spec(cs: Seq<PartialCallView>) -> Result<Seq<ToolCallView>, Seq<char>>
    decreases cs.len(),
{
    if cs.len() == 0 {
        Ok(Seq::empty())
    } else {
        match finalize_calls_spec(cs.drop_last()) {
            Err(e) => Err(e),
            Ok(done) => match finalize_call_spec(cs.last(), json_reformat(cs.last().arguments)) {
                Ok(t) => Ok(done.push(t)),
                Err(e) => Err(e),
            },
        }
    }
}

proof fn lemma_failure_stays(cs: Seq<PartialCallView>, k: int, e: Seq<char>)
    requires
        0 <= k <= cs.len(),
        finalize_calls_spec(cs.subrange(0, k)) == Err::<Seq<ToolCallView>, Seq<char>>(e),
    ensures
        finalize_calls_spec(cs) == Err::<Seq<ToolCallView>, Seq<char>>(e),
    decreases cs.len() - k,
{
    if k < cs.len() {
        let t = cs.subrange(0, k + 1);
        assert(t.drop_last() =~= cs.subrange(0, k));
        lemma_failure_stays(cs, k + 1, e);
    } else {
        assert(cs.subrange(0, k) =~= cs);
    }
}

fn finalize_all(calls: &Vec<StreamingToolCall>) -> (r: Result<Vec<RuntimeToolCall>, AttemptFailure>)
    ensures
        match r {
            Ok(v) => finalize_calls_spec(partials_view(calls@)) == Ok::<
                Seq<ToolCallView>,
                Seq<char>,
            >(calls_view(v@)),
            Err(f) => finalize_calls_spec(partials_view(calls@)) == Err::<
                Seq<ToolCallView>,
                Seq<char>,
            >(f.message@) && f.eligible_for_fallback,
        },
{
    let ghost cs = partials_view(calls@);
    let mut out: Vec<RuntimeToolCall> = Vec::new();
    assert(calls_view(out@) =~= Seq::<ToolCallView>::empty());
    assert(cs.subrange(0, 0) =~= Seq::<PartialCallView>::empty());
    let mut i: usize = 0;
    while i < calls.len()
        invariant
            i <= calls.len(),
            cs == partials_view(calls@),
            finalize_calls_spec(cs.subrange(0, i as int)) == Ok::<Seq<ToolCallView>, Seq<char>>(
                calls_view(out@),
            ),
        decreases calls.len() - i,
    {
        let ghost sub = cs.subrange(0, i + 1);
        assert(sub.drop_last() =~= cs.subrange(0, i as int));
        assert(sub.last() == calls@[i as int]@);
        match finalize_streaming_tool_call(&calls[i]) {
            Ok(t) => {
                let ghost before = calls_view(out@);
                out.push(t);
                assert(calls_view(out@) =~= before.push(t@));
            },
            Err(f) => {
                proof {
                    lemma_failure_stays(cs, i + 1, f.message@);
                }
                return Err(f);
            },
        }
        i = i + 1;
    }
    assert(cs.subrange(0, calls.len() as int) =~= cs);
    Ok(out)
}

/// A streamed reply put together.
pub struct StreamedReply {
    pub id: String,
    pub object: String,
    pub created: i64,
    pub model: String,
    pub content: String,
    pub tool_calls: Vec<RuntimeToolCall>,
    pub finish_reason: Option<String>,
    pub usage: Option<Usage>,
}

/// The id of a reply: the one the stream gave, or `prefix` and the time
/// in milliseconds when it gave none.
pub open spec fn reply_id(given: Seq<char>, prefix: Seq<char>, now_millis: i64) -> Seq<char> {
    if given.len() == 0 {
        prefix + signed_decimal(now_millis as int)
    } else {
        given
    }
}

fn reply_id_exec(given: &String, prefix: &str, now_millis: i64) -> (r: String)
    ensures
        r@ == reply_id(given@, prefix@, now_millis),
{
    if given.as_str().is_empty() {
        let n = i64_to_string(now_millis);
        concat(prefix, n.as_str())
    } else {
        given.clone()
    }
}

impl OpenAiStreamState {
    /// The reply once the stream has ended: the calls finished in order
    /// of position, the id defaulted from `now_millis` when the stream
    /// gave none; fails when a call's arguments are not JSON.
    pub fn finish(self, now_millis: i64) -> (r: Result<StreamedReply, AttemptFailure>)
        ensures
            match r {
                Ok(rep) => {
                    &&& finalize_calls_spec(self@.tool_calls) == Ok::<
                        Seq<ToolCallView>,
                        Seq<char>,
                    >(calls_view(rep.tool_calls@))
                    &&& rep.id@ == reply_id(self@.response_id, "stream-"@, now_millis)
                    &&& rep.object@ == self@.object
                    &&& rep.created == self.created
                    &&& rep.model@ == self@.model
                    &&& rep.content@ == self@.content
                    &&& opt_view(rep.finish_reason) == self@.finish_reason
                    &&& rep.usage is None
                },
                Err(f) => finalize_calls_spec(self@.tool_calls) == Err::<
                    Seq<ToolCallView>,
                    Seq<char>,
                >(f.message@) && f.eligible_for_fallback,
            },
    {
        let calls = match finalize_all(&self.tool_calls) {
            Ok(v) => v,
            Err(f) => {
                return Err(f);
            },
        };
        let id = reply_id_exec(&self.response_id, "stream-", now_millis);
        Ok(
            StreamedReply {
                id,
                object: self.object,
                created: self.created,
                model: self.model,
                content: self.content,
                tool_calls: calls,
                finish_reason: self.finish_reason,
                usage: None,
            },
        )
    }
}

// ---------------------------------------------------------------------
// Anthropic-style events

/// Token counts as an Anthropic-style stream reports them.
#[derive(Debug, Clone, Copy)]
pub struct AnthropicUsage {
    pub input_tokens: usize,
    pub output_tokens: usize,
}

/// The content block a `content_block_start` event opens. The input of a
/// tool use is carried as its JSON text.
#[derive(Debug)]
pub enum AnthropicStreamContentBlock {
    Text { text: Option<String> },
    Thinking { thinking: Option<String> },
    ToolUse { id: Option<String>, name: Option<String>, input: Option<String> },
}

/// The increment a `content_block_delta` event carries.
#[derive(Debug)]
pub enum AnthropicStreamDelta {
    TextDelta { text: String },
    ThinkingDelta { thinking: String },
    InputJsonDelta { partial_json: String },
    Unknown,
}

/// What a `message_start` event says of the message.
#[derive(Debug)]
pub struct AnthropicStreamMessageStart {
    pub id: String,
    pub model: String,
    pub usage: Option<AnthropicUsage>,
}

/// What a `message_delta` event says of the message.
#[derive(Debug)]
pub struct AnthropicStreamMessageDelta {
    pub stop_reason: Option<String>,
    pub usage: Option<AnthropicUsage>,
}

/// One parsed event of an Anthropic-style stream.
#[derive(Debug)]
pub struct AnthropicStreamEnvelope {
    pub event_type: String,
    pub index: Option<usize>,
    pub delta: Option<AnthropicStreamDelta>,
    pub content_block: Option<AnthropicStreamContentBlock>,
    pub message: Option<AnthropicStreamMessageStart>,
    pub message_delta: Option<AnthropicStreamMessageDelta>,
}

/// A content block as gathered so far.
#[derive(Debug)]
pub enum StreamingAnthropicBlock {
    Empty,
    Text(String),
    Thinking(String),
    ToolUse { id: String, name: String, input_json: String },
}

/// The mathematical value of a `StreamingAnthropicBlock`.
pub enum BlockView {
    Empty,
    Text(Seq<char>),
    Thinking(Seq<char>),
    ToolUse { id: Seq<char>, name: Seq<char>, input_json: Seq<char> },
}

impl View for StreamingAnthropicBlock {
    type V = BlockView;

    open spec fn view(&self) -> BlockView {
        match self {
            StreamingAnthropicBlock::Empty => BlockView::Empty,
            StreamingAnthropicBlock::Text(t) => BlockView::Text(t@),
            StreamingAnthropicBlock::Thinking(t) => BlockView::Thinking(t@),
            StreamingAnthropicBlock::ToolUse { id, name, input_json } => BlockView::ToolUse {
                id: id@,
                name: name@,
                input_json: input_json@,
            },
        }
    }
}

/// The views of a list of blocks.
pub open spec fn blocks_view(v: Seq<StreamingAnthropicBlock>) -> Seq<BlockView> {
    v.map_values(|b: StreamingAnthropicBlock| b@)
}

/// Text shown while an Anthropic-style stream arrives.
#[derive(Debug, PartialEq, Eq)]
pub enum StreamText {
    Assistant(String),
    Thinking(String),
}

/// The mathematical value of a `StreamText`.
pub enum StreamTextView {
    Assistant(Seq<char>),
    Thinking(Seq<char>),
}

impl View for StreamText {
    type V = StreamTextView;

    open spec fn view(&self) -> StreamTextView {
        match self {
            StreamText::Assistant(t) => StreamTextView::Assistant(t@),
            StreamText::Thinking(t) => StreamTextView::Thinking(t@),
        }
    }
}

/// What one event asks of the reader: text to show, and whether to stop
/// reading the lines already received.
pub struct AnthropicStep {
    pub shown: Option<StreamText>,
    pub stop: bool,
}

/// What has been gathered from an Anthropic-style stream so far.
pub struct AnthropicStreamState {
    pub current_event: String,
    pub content: String,
    pub thinking: String,
    pub finish_reason: Option<String>,
    pub response_id: String,
    pub model: String,
    pub usage: Option<Usage>,
    pub blocks: Vec<StreamingAnthropicBlock>,
}

/// The mathematical value of an `AnthropicStreamState`.
pub struct AnthropicStreamView {
    pub current_event: Seq<char>,
    pub content: Seq<char>,
    pub thinking: Seq<char>,
    pub finish_reason: Option<Seq<char>>,
    pub response_id: Seq<char>,
    pub model: Seq<char>,
    pub usage: Option<Usage>,
    pub blocks: Seq<BlockView>,
}

impl View for AnthropicStreamState {
    type V = AnthropicStreamView;

    open spec fn view(&self) -> AnthropicStreamView {
        AnthropicStreamView {
            current_event: self.current_event@,
            content: self.content@,
            thinking: self.thinking@,
            finish_reason: opt_view(self.finish_reason),
            response_id: self.response_id@,
            model: self.model@,
            usage: self.usage,
            blocks: blocks_view(self.blocks@),
        }
    }
}

/// The usage record made from reported counts.
pub open spec fn usage_of(u: AnthropicUsage) -> Usage {
    Usage {
        prompt_tokens: u.input_tokens,
        completion_tokens: u.output_tokens,
        total_tokens: (u.input_tokens + u.output_tokens) as usize,
    }
}

/// Reported counts whose total fits in a `usize`.
pub open spec fn usage_fits(u: Option<AnthropicUsage>) -> bool {
    match u {
        Some(u) => u.input_tokens + u.output_tokens <= usize::MAX,
        None => true,
    }
}

/// The kind of an event: the last `event:` line's name, or the event's
/// own type when no such line came.
pub open spec fn event_kind(st: AnthropicStreamView, e: AnthropicStreamEnvelope) -> Seq<char> {
    if st.current_event.len() == 0 {
        e.event_type@
    } else {
        st.current_event
    }
}

/// The block position an event addresses: its own, or the next one.
pub open spec fn start_index(st: AnthropicStreamView, e: AnthropicStreamEnvelope) -> int {
    match e.index {
        Some(i) => i as int,
        None => st.blocks.len() as int,
    }
}

/// An event the state can take: the block positions it may open and the
/// token totals it reports fit in a `usize`.
pub open spec fn event_fits(st: AnthropicStreamView, e: AnthropicStreamEnvelope) -> bool {
    &&& start_index(st, e) < usize::MAX
    &&& match e.message {
        Some(m) => usage_fits(m.usage),
        None => true,
    }
    &&& match e.message_delta {
        Some(d) => usage_fits(d.usage),
        None => true,
    }
}

/// The blocks made long enough to hold position `index`, new positions
/// empty.
pub open spec fn padded(bs: Seq<BlockView>, index: int) -> Seq<BlockView> {
    if bs.len() <= index {
        bs + Seq::new((index + 1 - bs.len()) as nat, |i: int| BlockView::Empty)
    } else {
        bs
    }
}

/// The block a `content_block_start` event opens.
pub open spec fn started_block(b: Option<AnthropicStreamContentBlock>) -> BlockView {
    match b {
        Some(AnthropicStreamContentBlock::Text { text }) => BlockView::Text(
            match opt_view(text) {
                Some(t) => t,
                None => Seq::empty(),
            },
        ),
        Some(AnthropicStreamContentBlock::Thinking { thinking }) => BlockView::Thinking(
            match opt_view(thinking) {
                Some(t) => t,
                None => Seq::empty(),
            },
        ),
        Some(AnthropicStreamContentBlock::ToolUse { id, name, input }) => BlockView::ToolUse {
            id: match opt_view(id) {
                Some(t) => t,
                None => Seq::empty(),
            },
            name: match opt_view(name) {
                Some(t) => t,
                None => Seq::empty(),
            },
            input_json: match opt_view(input) {
                Some(t) => t,
                None => Seq::empty(),
            },
        },
        None => BlockView::Empty,
    }
}

/// A block after a delta: text and thinking are appended to a block of
/// their kind or replace a block of another kind; input JSON is appended
/// to a tool use and dropped elsewhere.
pub open spec fn delta_block(b: BlockView, d: AnthropicStreamDelta) -> BlockView {
    match d {
        AnthropicStreamDelta::TextDelta { text } => match b {
            BlockView::Text(x) => BlockView::Text(x + text@),
            _ => BlockView::Text(text@),
        },
        AnthropicStreamDelta::ThinkingDelta { thinking } => match b {
            BlockView::Thinking(x) => BlockView::Thinking(x + thinking@),
            _ => BlockView::Thinking(thinking@),
        },
        AnthropicStreamDelta::InputJsonDelta { partial_json } => match b {
            BlockView::ToolUse { id, name, input_json } => BlockView::ToolUse {
                id,
                name,
                input_json: input_json + partial_json@,
            },
            _ => b,
        },
        AnthropicStreamDelta::Unknown => b,
    }
}

/// The reply text a delta adds.
pub open spec fn delta_text(d: Option<AnthropicStreamDelta>) -> Seq<char> {
    match d {
        Some(AnthropicStreamDelta::TextDelta { text }) => text@,
        _ => Seq::empty(),
    }
}

/// The thinking text a delta adds.
pub open spec fn delta_thinking(d: Option<AnthropicStreamDelta>) -> Seq<char> {
    match d {
        Some(AnthropicStreamDelta::ThinkingDelta { thinking }) => thinking@,
        _ => Seq::empty(),
    }
}

/// One event applied. `message_start` sets the id, model and usage;
/// `content_block_start` opens a block at its position; a
/// `content_block_delta` with a position extends that block and the
/// reply or thinking text; `message_delta` updates the stop reason and
/// usage it gives; every other event leaves the state as it is.
pub open spec fn apply_event_spec(st: AnthropicStreamView, e: AnthropicStreamEnvelope) -> AnthropicStreamView {
    let kind = event_kind(st, e);
    if kind == "message_start"@ {
        match e.message {
            Some(m) => AnthropicStreamView {
                response_id: m.id@,
                model: m.model@,
                usage: match m.usage {
                    Some(u) => Some(usage_of(u)),
                    None => None,
                },
                ..st
            },
            None => st,
        }
    } else if kind == "content_block_start"@ {
        let index = start_index(st, e);
        AnthropicStreamView {
            blocks: padded(st.blocks, index).update(index, started_block(e.content_block)),
            ..st
        }
    } else if kind == "content_block_delta"@ {
        match e.index {
            None => st,
            Some(i) => {
                let bs = padded(st.blocks, i as int);
                match e.delta {
                    None => AnthropicStreamView { blocks: bs, ..st },
                    Some(d) => AnthropicStreamView {
                        blocks: bs.update(i as int, delta_block(bs[i as int], d)),
                        content: st.content + delta_text(e.delta),
                        thinking: st.thinking + delta_thinking(e.delta),
                        ..st
                    },
                }
            },
        }
    } else if kind == "message_delta"@ {
        match e.message_delta {
            Some(md) => AnthropicStreamView {
                finish_reason: if md.stop_reason is Some {
                    opt_view(md.stop_reason)
                } else {
                    st.finish_reason
                },
                usage: match md.usage {
                    Some(u) => Some(usage_of(u)),
                    None => st.usage,
                },
                ..st
            },
            None => st,
        }
    } else {
        st
    }
}

/// The text an event shows: the text or thinking of a positioned
/// `content_block_delta`.
pub open spec fn event_shown(st: AnthropicStreamView, e: AnthropicStreamEnvelope) -> Option<StreamTextView> {
    if event_kind(st, e) == "content_block_delta"@ && e.index is Some {
        match e.delta {
            Some(AnthropicStreamDelta::TextDelta { text }) => Some(StreamTextView::Assistant(text@)),
            Some(AnthropicStreamDelta::ThinkingDelta { thinking }) => Some(
                StreamTextView::Thinking(thinking@),
            ),
            _ => None,
        }
    } else {
        None
    }
}

/// The view of what an event shows.
pub open spec fn shown_view(s: Option<StreamText>) -> Option<StreamTextView> {
    match s {
        Some(t) => Some(t@),
        None => None,
    }
}

/// The assistant text an event's step shows.
pub open spec fn shown_assistant(s: Option<StreamTextView>) -> Seq<char> {
    match s {
        Some(StreamTextView::Assistant(t)) => t,
        _ => Seq::empty(),
    }
}

/// The thinking text an event's step shows.
pub open spec fn shown_thinking(s: Option<StreamTextView>) -> Seq<char> {
    match s {
        Some(StreamTextView::Thinking(t)) => t,
        _ => Seq::empty(),
    }
}

/// What an Anthropic-style stream shows as it arrives is what the reply
/// holds: each event appends to the reply text exactly the assistant text
/// it shows, and to the thinking text exactly the thinking it shows.
pub proof fn law_shown_event_text_is_reply_text(st: AnthropicStreamView, e: AnthropicStreamEnvelope)
    ensures
        apply_event_spec(st, e).content == st.content + shown_assistant(event_shown(st, e)),
        apply_event_spec(st, e).thinking == st.thinking + shown_thinking(event_shown(st, e)),
{
    reveal_strlit("message_start");
    reveal_strlit("content_block_start");
    reveal_strlit("content_block_delta");
    reveal_strlit("message_delta");
    assert("message_start"@.len() == 13);
    assert("content_block_start"@.len() == 19);
    assert("content_block_delta"@.len() == 19);
    assert("message_delta"@.len() == 13);
    assert("content_block_start"@[14] != "content_block_delta"@[14]);
    assert("message_start"@[8] != "message_delta"@[8]);
    assert(st.content + Seq::<char>::empty() =~= st.content);
    assert(st.thinking + Seq::<char>::empty() =~= st.thinking);
}

/// Makes the blocks long enough to hold position `index`.
pub fn ensure_anthropic_block_len(blocks: &mut Vec<StreamingAnthropicBlock>, index: usize)
    requires
        index < usize::MAX,
    ensures
        blocks_view(final(blocks)@) == padded(blocks_view(old(blocks)@), index as int),
        index < final(blocks).len(),
{
    let ghost start = blocks_view(blocks@);
    if blocks.len() <= index {
        assert(blocks_view(blocks@) =~= start + Seq::new(0, |i: int| BlockView::Empty));
        while blocks.len() <= index
            invariant
                start.len() <= blocks.len() <= index + 1,
                start.len() <= index,
                index < usize::MAX,
                blocks_view(blocks@) == start + Seq::new(
                    (blocks.len() - start.len()) as nat,
                    |i: int| BlockView::Empty,
                ),
            decreases index + 1 - blocks.len(),
        {
            let ghost n = blocks.len();
            let ghost before = blocks@;
            blocks.push(StreamingAnthropicBlock::Empty);
            assert(blocks_view(blocks@) =~= blocks_view(before).push(BlockView::Empty));
            assert(blocks_view(blocks@) =~= start + Seq::new(
                (n + 1 - start.len()) as nat,
                |i: int| BlockView::Empty,
            ));
        }
    }
}

fn text_or_empty(t: &Option<String>) -> (r: String)
    ensures
        r@ == (match opt_view(*t) {
            Some(x) => x,
            None => Seq::<char>::empty(),
        }),
{
    match t {
        Some(x) => x.clone(),
        None => String::new(),
    }
}

fn block_from_start(b: &Option<AnthropicStreamContentBlock>) -> (r: StreamingAnthropicBlock)
    ensures
        r@ == started_block(*b),
{
    match b {
        Some(AnthropicStreamContentBlock::Text { text }) => StreamingAnthropicBlock::Text(
            text_or_empty(text),
        ),
        Some(AnthropicStreamContentBlock::Thinking { thinking }) => StreamingAnthropicBlock::Thinking(
            text_or_empty(thinking),
        ),
        Some(AnthropicStreamContentBlock::ToolUse { id, name, input }) => {
            StreamingAnthropicBlock::ToolUse {
                id: text_or_empty(id),
                name: text_or_empty(name),
                input_json: text_or_empty(input),
            }
        },
        None => StreamingAnthropicBlock::Empty,
    }
}

fn block_after_delta(b: &StreamingAnthropicBlock, d: &AnthropicStreamDelta) -> (r: Option<
    StreamingAnthropicBlock,
>)
    ensures
        match r {
            Some(nb) => nb@ == delta_block(b@, *d),
            None => delta_block(b@, *d) == b@,
        },
{
    match d {
        AnthropicStreamDelta::TextDelta { text } => match b {
            StreamingAnthropicBlock::Text(x) => Some(
                StreamingAnthropicBlock::Text(concat(x.as_str(), text.as_str())),
            ),
            _ => Some(StreamingAnthropicBlock::Text(text.clone())),
        },
        AnthropicStreamDelta::ThinkingDelta { thinking } => match b {
            StreamingAnthropicBlock::Thinking(x) => Some(
                StreamingAnthropicBlock::Thinking(concat(x.as_str(), thinking.as_str())),
            ),
            _ => Some(StreamingAnthropicBlock::Thinking(thinking.clone())),
        },
        AnthropicStreamDelta::InputJsonDelta { partial_json } => match b {
            StreamingAnthropicBlock::ToolUse { id, name, input_json } => Some(
                StreamingAnthropicBlock::ToolUse {
                    id: id.clone(),
                    name: name.clone(),
                    input_json: concat(input_json.as_str(), partial_json.as_str()),
                },
            ),
            _ => None,
        },
        AnthropicStreamDelta::Unknown => None,
    }
}

fn usage_from(u: &Option<AnthropicUsage>) -> (r: Option<Usage>)
    requires
        usage_fits(*u),
    ensures
        r == (match *u {
            Some(x) => Some(usage_of(x)),
            None => None::<Usage>,
        }),
{
    match u {
        Some(x) => Some(
            Usage {
                prompt_tokens: x.input_tokens,
                completion_tokens: x.output_tokens,
                total_tokens: x.input_tokens + x.output_tokens,
            },
        ),
        None => None,
    }
}

impl AnthropicStreamState {
    /// Nothing gathered yet; `model` stands until the stream names one.
    pub fn new(model: String) -> (st: Self)
        ensures
            st@ == (AnthropicStreamView {
                current_event: Seq::empty(),
                content: Seq::empty(),
                thinking: Seq::empty(),
                finish_reason: None,
                response_id: Seq::empty(),
                model: model@,
                usage: None,
                blocks: Seq::empty(),
            }),
    {
        let st = AnthropicStreamState {
            current_event: String::new(),
            content: String::new(),
            thinking: String::new(),
            finish_reason: None,
            response_id: String::new(),
            model,
            usage: None,
            blocks: Vec::new(),
        };
        assert(blocks_view(st.blocks@) =~= Seq::<BlockView>::empty());
        st
    }

    /// Records the name an `event:` line gives; it holds for every payload
    /// after it.
    pub fn set_event(&mut self, name: String)
        ensures
            final(self)@ == (AnthropicStreamView { current_event: name@, ..old(self)@ }),
    {
        self.current_event = name;
    }

    /// Applies one parsed event; gives the text to show and whether the
    /// lines already received are to be left unread.
    pub fn apply_event(&mut self, e: &AnthropicStreamEnvelope) -> (step: AnthropicStep)
        requires
            event_fits(old(self)@, *e),
        ensures
            final(self)@ == apply_event_spec(old(self)@, *e),
            shown_view(step.shown) == event_shown(old(self)@, *e),
            step.stop == (event_kind(old(self)@, *e) == "message_stop"@),
    {
        proof {
            reveal_strlit("message_start");
            reveal_strlit("content_block_start");
            reveal_strlit("content_block_delta");
            reveal_strlit("message_delta");
            reveal_strlit("message_stop");
            assert("message_start"@.len() == 13);
            assert("content_block_start"@.len() == 19);
            assert("content_block_delta"@.len() == 19);
            assert("message_delta"@.len() == 13);
            assert("message_stop"@.len() == 12);
            assert("content_block_start"@[14] != "content_block_delta"@[14]);
            assert("message_start"@[8] != "message_delta"@[8]);
        }
        let kind = if self.current_event.as_str().is_empty() {
            e.event_type.clone()
        } else {
            self.current_event.clone()
        };
        let k = chars_of(kind.as_str());
        if vec_is(&k, "message_start") {
            match &e.message {
                Some(m) => {
                    self.response_id = m.id.clone();
                    self.model = m.model.clone();
                    self.usage = usage_from(&m.usage);
                },
                None => {},
            }
            AnthropicStep { shown: None, stop: false }
        } else if vec_is(&k, "content_block_start") {
            let index = match e.index {
                Some(i) => i,
                None => self.blocks.len(),
            };
            ensure_anthropic_block_len(&mut self.blocks, index);
            let b = block_from_start(&e.content_block);
            let ghost bs = blocks_view(self.blocks@);
            self.blocks.set(index, b);
            assert(blocks_view(self.blocks@) =~= bs.update(index as int, started_block(e.content_block)));
            AnthropicStep { shown: None, stop: false }
        } else if vec_is(&k, "content_block_delta") {
            let index = match e.index {
                Some(i) => i,
                None => {
                    return AnthropicStep { shown: None, stop: false };
                },
            };
            ensure_anthropic_block_len(&mut self.blocks, index);
            let ghost bs = blocks_view(self.blocks@);
            match &e.delta {
                None => AnthropicStep { shown: None, stop: false },
                Some(d) => {
                    match block_after_delta(&self.blocks[index], d) {
                        Some(nb) => {
                            self.blocks.set(index, nb);
                            assert(blocks_view(self.blocks@) =~= bs.update(
                                index as int,
                                delta_block(bs[index as int], *d),
                            ));
                        },
                        None => {
                            assert(blocks_view(self.blocks@) =~= bs.update(
                                index as int,
                                delta_block(bs[index as int], *d),
                            ));
                        },
                    }
                    match d {
                        AnthropicStreamDelta::TextDelta { text } => {
                            self.content.append(text.as_str());
                            assert(self.thinking@ =~= old(self).thinking@ + Seq::<char>::empty());
                            AnthropicStep {
                                shown: Some(StreamText::Assistant(text.clone())),
                                stop: false,
                            }
                        },
                        AnthropicStreamDelta::ThinkingDelta { thinking } => {
                            self.thinking.append(thinking.as_str());
                            assert(self.content@ =~= old(self).content@ + Seq::<char>::empty());
                            AnthropicStep {
                                shown: Some(StreamText::Thinking(thinking.clone())),
                                stop: false,
                            }
                        },
                        _ => {
                            assert(self.content@ =~= old(self).content@ + Seq::<char>::empty());
                            assert(self.thinking@ =~= old(self).thinking@ + Seq::<char>::empty());
                            AnthropicStep { shown: None, stop: false }
                        },
                    }
                },
            }
        } else if vec_is(&k, "message_delta") {
            match &e.message_delta {
                Some(md) => {
                    if md.stop_reason.is_some() {
                        self.finish_reason = clone_opt(&md.stop_reason);
                    }
                    if md.usage.is_some() {
                        self.usage = usage_from(&md.usage);
                    }
                },
                None => {},
            }
            AnthropicStep { shown: None, stop: false }
        } else {
            AnthropicStep { shown: None, stop: vec_is(&k, "message_stop") }
        }
    }
}

/// The tool call a finished block makes: a tool use with its input
/// printed as compact JSON, or `{}` when the input is not JSON.
pub open spec fn block_call(b: BlockView) -> Option<ToolCallView> {
    match b {
        BlockView::ToolUse { id, name, input_json } => Some(
            ToolCallView {
                id,
                name,
                arguments: match json_reformat(input_json) {
                    Ok(a) => a,
                    Err(_) => "{}"@,
                },
            },
        ),
        _ => None,
    }
}

/// The tool calls the blocks make, in block order.
pub open spec fn block_calls(bs: Seq<BlockView>) -> Seq<ToolCallView>
    decreases bs.len(),
{
    if bs.len() == 0 {
        Seq::empty()
    } else {
        match block_call(bs.last()) {
            Some(c) => block_calls(bs.drop_last()).push(c),
            None => block_calls(bs.drop_last()),
        }
    }
}

fn call_of_block(b: &StreamingAnthropicBlock) -> (r: Option<RuntimeToolCall>)
    ensures
        match r {
            Some(c) => block_call(b@) == Some(c@),
            None => block_call(b@) is None,
        },
{
    proof {
        reveal_strlit("{}");
    }
    match b {
        StreamingAnthropicBlock::ToolUse { id, name, input_json } => {
            let arguments = match reformat_json(input_json.as_str()) {
                Ok(a) => a,
                Err(_) => String::from_str("{}"),
            };
            Some(RuntimeToolCall { id: id.clone(), name: name.clone(), arguments })
        },
        _ => None,
    }
}

impl AnthropicStreamState {
    /// The reply once the stream has ended: one tool call per tool-use
    /// block, in block order; the id defaulted from `now_millis` when the
    /// stream gave none, and `now_secs` as the creation time.
    pub fn finish(self, now_millis: i64, now_secs: i64) -> (rep: StreamedReply)
        ensures
            calls_view(rep.tool_calls@) == block_calls(self@.blocks),
            rep.id@ == reply_id(self@.response_id, "anthropic-stream-"@, now_millis),
            rep.object@ == "message"@,
            rep.created == now_secs,
            rep.model@ == self@.model,
            rep.content@ == self@.content,
            opt_view(rep.finish_reason) == self@.finish_reason,
            rep.usage == self@.usage,
    {
        let ghost bs = blocks_view(self.blocks@);
        let mut calls: Vec<RuntimeToolCall> = Vec::new();
        assert(calls_view(calls@) =~= block_calls(bs.subrange(0, 0)));
        let mut i: usize = 0;
        while i < self.blocks.len()
            invariant
                i <= self.blocks.len(),
                bs == blocks_view(self.blocks@),
                calls_view(calls@) == block_calls(bs.subrange(0, i as int)),
            decreases self.blocks.len() - i,
        {
            let ghost sub = bs.subrange(0, i + 1);
            assert(sub.drop_last() =~= bs.subrange(0, i as int));
            assert(sub.last() == self.blocks@[i as int]@);
            match call_of_block(&self.blocks[i]) {
                Some(c) => {
                    let ghost before = calls_view(calls@);
                    calls.push(c);
                    assert(calls_view(calls@) =~= before.push(c@));
                },
                None => {},
            }
            i = i + 1;
        }
        assert(bs.subrange(0, self.blocks.len() as int) =~= bs);
        let id = reply_id_exec(&self.response_id, "anthropic-stream-", now_millis);
        StreamedReply {
            id,
            object: String::from_str("message"),
            created: now_secs,
            model: self.model,
            content: self.content,
            tool_calls: calls,
            finish_reason: self.finish_reason,
            usage: self.usage,
        }
    }
}

/// A failure of one attempt, `what` followed by the cause; the next
/// target may be tried.
pub fn stream_failure(what: &str, cause: &str) -> (f: AttemptFailure)
    ensures
        f.message@ == what@ + ": "@ + cause@,
        f.eligible_for_fallback,
{
    let mut m = String::from_str(what);
    m.append(": ");
    m.append(cause);
    AttemptFailure { message: m, eligible_for_fallback: true }
}

} // verus!
