//! Request planning for the chat API: endpoint URLs, which HTTP statuses
//! move a request on to the next target, the ordered list of distinct
//! targets to try, and the shapes of usage and streaming records.

use vstd::prelude::*;
use crate::api_config::{
    EnvSnapshot, ResolvedApiTarget, ResolvedTargetView, active_target_spec, chain_view, env_view,
    fallback_target_spec, protocol_name, targets_view, FallbackTargetView,
};
use crate::markdown::{strip_trail, strip_trail_str};
use crate::settings::Settings;
use crate::text::{concat, ends_with_str, has_suffix, join, join_strs, str_eq, views};

verus! {

/// The URL of `endpoint_path` under `base_url`: trailing `/` are dropped
/// from the base; a base that already ends with the endpoint (or, for the
/// chat-completions and messages endpoints, with the part after `/v1`) is
/// the URL itself; a base ending in `/v1` gets only that part appended;
/// any other base gets the whole endpoint path.
pub open spec fn api_url_spec(base_url: Seq<char>, endpoint_path: Seq<char>) -> Seq<char> {
    let t = strip_trail(base_url, '/');
    if has_suffix(t, endpoint_path) {
        t
    } else if endpoint_path == "/v1/chat/completions"@ && has_suffix(t, "/chat/completions"@) {
        t
    } else if endpoint_path == "/v1/chat/completions"@ && has_suffix(t, "/v1"@) {
        t + "/chat/completions"@
    } else if endpoint_path == "/v1/messages"@ && has_suffix(t, "/messages"@) {
        t
    } else if endpoint_path == "/v1/messages"@ && has_suffix(t, "/v1"@) {
        t + "/messages"@
    } else {
        t + endpoint_path
    }
}

/// The URL of `endpoint_path` under `base_url`, without repeating a `/v1`
/// or an endpoint the base already holds.
pub fn build_api_url(base_url: &str, endpoint_path: &str) -> (r: String)
    ensures
        r@ == api_url_spec(base_url@, endpoint_path@),
{
    proof {
        reveal_strlit("/v1/chat/completions");
        reveal_strlit("/v1/messages");
    }
    let trimmed = strip_trail_str(base_url, '/');
    let t = trimmed.as_str();
    if ends_with_str(t, endpoint_path) {
        return trimmed.clone();
    }
    if str_eq(endpoint_path, "/v1/chat/completions") {
        if ends_with_str(t, "/chat/completions") {
            return trimmed.clone();
        }
        if ends_with_str(t, "/v1") {
            return concat(t, "/chat/completions");
        }
    } else if str_eq(endpoint_path, "/v1/messages") {
        if ends_with_str(t, "/messages") {
            return trimmed.clone();
        }
        if ends_with_str(t, "/v1") {
            return concat(t, "/messages");
        }
    }
    concat(t, endpoint_path)
}

/// Whether a response status sends the request on to the next target:
/// 401, 403, 404, 408, 409, 429, or any server error (500 to 599).
pub open spec fn fallback_status(status: u16) -> bool {
    status == 401 || status == 403 || status == 404 || status == 408 || status == 409 || status
        == 429 || (500 <= status <= 599)
}

/// Whether a response status sends the request on to the next target.
pub fn is_fallback_status(status: u16) -> (b: bool)
    ensures
        b == fallback_status(status),
{
    status == 401 || status == 403 || status == 404 || status == 408 || status == 409 || status
        == 429 || (500 <= status && status <= 599)
}

/// What tells two targets apart: label, protocol, base URL and model,
/// separated by `|`.
pub open spec fn target_key(t: ResolvedTargetView) -> Seq<char> {
    t.provider_label + "|"@ + protocol_name(t.protocol) + "|"@ + t.base_url + "|"@ + t.model
}

/// The targets in order, each kept only if no earlier one has the same key.
pub open spec fn distinct_targets(ts: Seq<ResolvedTargetView>) -> Seq<ResolvedTargetView>
    decreases ts.len(),
{
    if ts.len() == 0 {
        Seq::empty()
    } else {
        let r = distinct_targets(ts.drop_last());
        if exists|j: int| 0 <= j < ts.len() - 1 && target_key(#[trigger] ts[j]) == target_key(ts.last()) {
            r
        } else {
            r.push(ts.last())
        }
    }
}

fn key_of(t: &ResolvedApiTarget) -> (k: String)
    ensures
        k@ == target_key(t@),
{
    let mut k = t.provider_label.clone();
    k.append("|");
    k.append(t.protocol.as_str());
    k.append("|");
    k.append(t.base_url.as_str());
    k.append("|");
    k.append(t.model.as_str());
    k
}

/// The targets in order without repeats (by `target_key`).
pub fn dedup_targets(targets: Vec<ResolvedApiTarget>) -> (r: Vec<ResolvedApiTarget>)
    ensures
        targets_view(r@) == distinct_targets(targets_view(targets@)),
{
    let ghost tv = targets_view(targets@);
    let mut keys: Vec<String> = Vec::new();
    let mut out: Vec<ResolvedApiTarget> = Vec::new();
    let mut i: usize = 0;
    while i < targets.len()
        invariant
            i <= targets.len(),
            tv == targets_view(targets@),
            targets_view(out@) == distinct_targets(tv.subrange(0, i as int)),
            keys@.len() == i,
            forall|j: int| 0 <= j < i ==> #[trigger] keys@[j]@ == target_key(tv[j]),
        decreases targets.len() - i,
    {
        let ghost pre = tv.subrange(0, i + 1);
        assert(pre.drop_last() =~= tv.subrange(0, i as int));
        assert(pre.last() == targets@[i as int]@);
        let k = key_of(&targets[i]);
        let mut seen = false;
        let mut j: usize = 0;
        while j < i && !seen
            invariant
                j <= i,
                i < targets.len(),
                keys@.len() == i,
                tv == targets_view(targets@),
                k@ == target_key(tv[i as int]),
                forall|m: int| 0 <= m < i ==> #[trigger] keys@[m]@ == target_key(tv[m]),
                !seen ==> forall|m: int| 0 <= m < j ==> target_key(#[trigger] tv[m]) != k@,
                seen ==> exists|m: int| 0 <= m < i && target_key(#[trigger] tv[m]) == k@,
            decreases i - j,
        {
            assert(keys@[j as int]@ == target_key(tv[j as int]));
            if str_eq(keys[j].as_str(), k.as_str()) {
                seen = true;
            }
            j = j + 1;
        }
        proof {
            if seen {
                let m = choose|m: int| 0 <= m < i && target_key(#[trigger] tv[m]) == k@;
                assert(pre[m] == tv[m]);
            } else {
                assert forall|m: int| 0 <= m < pre.len() - 1 implies target_key(#[trigger] pre[m])
                    != target_key(pre.last()) by {
                    assert(pre[m] == tv[m]);
                }
            }
        }
        if !seen {
            let ghost before = targets_view(out@);
            let c = targets[i].clone();
            out.push(c);
            assert(targets_view(out@) =~= before.push(tv[i as int]));
        }
        keys.push(k);
        i = i + 1;
    }
    assert(tv.subrange(0, targets.len() as int) =~= tv);
    out
}

/// The targets a request tries, in order: the active target for the
/// session's model, then the enabled fallback targets, each once.
pub open spec fn request_targets_spec(s: Settings, env: Seq<(Seq<char>, Seq<char>)>) -> Seq<ResolvedTargetView> {
    let fallbacks = if s.api.fallback.enabled {
        chain_view(s.api.fallback.chain@).map_values(
            |t: FallbackTargetView| fallback_target_spec(s.api, env, t),
        )
    } else {
        Seq::empty()
    };
    distinct_targets(seq![active_target_spec(s.api, env, s.model@)] + fallbacks)
}

/// The targets a request tries under `env`, in order and without repeats.
pub fn request_targets(settings: &Settings, env: &EnvSnapshot) -> (r: Vec<ResolvedApiTarget>)
    ensures
        targets_view(r@) == request_targets_spec(*settings, env_view(*env)),
{
    let mut targets: Vec<ResolvedApiTarget> = Vec::new();
    let active = settings.api.active_target(env, settings.model.as_str());
    let ghost av = active@;
    targets.push(active);
    assert(targets_view(targets@) =~= seq![av]);
    let mut fallbacks = settings.api.fallback_targets(env);
    let ghost first = targets_view(targets@);
    let ghost rest = targets_view(fallbacks@);
    targets.append(&mut fallbacks);
    assert(targets_view(targets@) =~= first + rest);
    proof {
        if !settings.api.fallback.enabled {
            assert(rest =~= Seq::<ResolvedTargetView>::empty());
        }
    }
    dedup_targets(targets)
}

/// Token counts of one response.
#[derive(Debug, Clone, Copy, PartialEq, Eq, Structural)]
pub struct Usage {
    pub prompt_tokens: usize,
    pub completion_tokens: usize,
    pub total_tokens: usize,
}

/// One chunk of a streamed chat completion.
#[derive(Debug, Clone)]
pub struct StreamChunk {
    pub id: String,
    pub object: String,
    pub created: i64,
    pub model: String,
    pub choices: Vec<StreamChoice>,
}

/// One choice of a streamed chunk.
#[derive(Debug, Clone)]
pub struct StreamChoice {
    pub index: i32,
    pub delta: Delta,
    pub finish_reason: Option<String>,
}

/// The increment a streamed choice carries.
#[derive(Debug, Clone)]
pub struct Delta {
    pub role: Option<String>,
    pub content: Option<String>,
    pub tool_calls: Option<Vec<StreamDeltaToolCall>>,
}

/// A streamed fragment of a tool call.
#[derive(Debug, Clone)]
pub struct StreamDeltaToolCall {
    pub index: usize,
    pub id: Option<String>,
    pub function: Option<StreamDeltaFunction>,
}

/// A streamed fragment of a tool call's function.
#[derive(Debug, Clone)]
pub struct StreamDeltaFunction {
    pub name: Option<String>,
    pub arguments: Option<String>,
}

/// What to do after a target fails: try the target at this position, or
/// give up with this message.
#[derive(Debug, Clone, PartialEq, Eq)]
pub enum AttemptStep {
    Try(usize),
    GiveUp(String),
}

/// The message when every target failed: one line per failure.
pub open spec fn all_failed_message(failures: Seq<Seq<char>>) -> Seq<char> {
    "All configured providers/models failed:\n"@ + join(failures, "\n"@)
}

/// A request going through its targets in order: the failures so far and
/// the position being tried.
pub struct FallbackRun {
    failures: Vec<String>,
    current: usize,
    count: usize,
}

impl FallbackRun {
    /// The failures recorded so far, each `target: message`.
    pub closed spec fn failures_spec(&self) -> Seq<Seq<char>> {
        views(self.failures@)
    }

    /// The position of the target being tried.
    pub closed spec fn current_spec(&self) -> usize {
        self.current
    }

    /// The number of targets.
    pub closed spec fn count_spec(&self) -> usize {
        self.count
    }

    /// A request over `count` targets: the first is tried, or, with none,
    /// the request gives up at once.
    pub fn start(count: usize) -> (r: (FallbackRun, AttemptStep))
        ensures
            r.0.failures_spec() == Seq::<Seq<char>>::empty(),
            r.0.current_spec() == 0,
            r.0.count_spec() == count,
            count > 0 ==> r.1 == AttemptStep::Try(0),
            count == 0 ==> (r.1 matches AttemptStep::GiveUp(m) && m@ == all_failed_message(Seq::empty())),
    {
        proof {
            reveal_strlit("All configured providers/models failed:\n");
        }
        let run = FallbackRun { failures: Vec::new(), current: 0, count };
        assert(views(run.failures@) =~= Seq::<Seq<char>>::empty());
        if count > 0 {
            (run, AttemptStep::Try(0))
        } else {
            let empty: Vec<String> = Vec::new();
            let joined = join_strs(&empty, "\n");
            assert(views(empty@) =~= Seq::<Seq<char>>::empty());
            (run, AttemptStep::GiveUp(concat("All configured providers/models failed:\n", joined.as_str())))
        }
    }

    /// The target being tried failed: its failure is recorded as
    /// `target: message`; the next target is tried if the failure allows
    /// it and one is left, and otherwise the request gives up listing all
    /// failures.
    pub fn on_failure(&mut self, target: &str, failure: &crate::stream::AttemptFailure) -> (step: AttemptStep)
        requires
            old(self).current_spec() < old(self).count_spec(),
        ensures
            final(self).failures_spec() == old(self).failures_spec().push(
                target@ + ": "@ + failure.message@,
            ),
            final(self).count_spec() == old(self).count_spec(),
            if failure.eligible_for_fallback && old(self).current_spec() + 1 < old(self).count_spec() {
                step == AttemptStep::Try((old(self).current_spec() + 1) as usize)
                    && final(self).current_spec() == old(self).current_spec() + 1
            } else {
                (step matches AttemptStep::GiveUp(m) && m@ == all_failed_message(final(self).failures_spec()))
            },
    {
        proof {
            reveal_strlit("All configured providers/models failed:\n");
        }
        let mut line = concat(target, ": ");
        line.append(failure.message.as_str());
        let ghost before = views(self.failures@);
        self.failures.push(line);
        assert(views(self.failures@) =~= before.push(target@ + ": "@ + failure.message@));
        if failure.eligible_for_fallback && self.current + 1 < self.count {
            self.current = self.current + 1;
            AttemptStep::Try(self.current)
        } else {
            let joined = join_strs(&self.failures, "\n");
            AttemptStep::GiveUp(concat("All configured providers/models failed:\n", joined.as_str()))
        }
    }
}

} // verus!
