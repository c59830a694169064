//! Confirming that an exported trace reached the trace backend: finding
//! the request span under the test's root span, and the polling schedule.

use vstd::prelude::*;
use crate::text::{str_eq, to_owned, concat};

verus! {

/// The name of the root span that the end-to-end check creates.
pub const ROOT_SPAN_NAME: &'static str = "showcase_observability_root_span";

/// Number of times the backend is asked for the trace.
pub const POLL_ATTEMPTS: u32 = 20;

/// Seconds to wait after each unsuccessful attempt.
pub const POLL_DELAY_SECS: u64 = 5;

/// The Cloud Trace address of the trace `trace_id` in `project_id`.
pub open spec fn trace_url_of(project_id: Seq<char>, trace_id: Seq<char>) -> Seq<char> {
    "https://cloudtrace.googleapis.com/v2/projects/"@ + project_id + "/traces/"@ + trace_id
}

/// The trace address names the project, then the trace: after the API
/// prefix `https://cloudtrace.googleapis.com/v2/projects/` comes the
/// project id, then `/traces/`, and it ends with the trace id.
pub proof fn lemma_trace_url_layout(project_id: Seq<char>, trace_id: Seq<char>)
    ensures
        ({
            let u = trace_url_of(project_id, trace_id);
            let prefix = "https://cloudtrace.googleapis.com/v2/projects/"@;
            let n: int = prefix.len() as int + project_id.len() as int;
            &&& u.len() == n + 8 + trace_id.len()
            &&& u.subrange(0, prefix.len() as int) == prefix
            &&& u.subrange(prefix.len() as int, n) == project_id
            &&& u.subrange(n, n + 8) == "/traces/"@
            &&& u.subrange(n + 8, u.len() as int) == trace_id
        }),
{
    reveal_strlit("/traces/");
    let prefix = "https://cloudtrace.googleapis.com/v2/projects/"@;
    let u = trace_url_of(project_id, trace_id);
    let n: int = prefix.len() as int + project_id.len() as int;
    assert(u.subrange(0, prefix.len() as int) =~= prefix);
    assert(u.subrange(prefix.len() as int, n) =~= project_id);
    assert(u.subrange(n, n + 8) =~= "/traces/"@);
    assert(u.subrange(n + 8, u.len() as int) =~= trace_id);
}

/// The address from which the trace `trace_id` of `project_id` is read.
pub fn trace_url(project_id: &str, trace_id: &str) -> (r: String)
    ensures
        r@ == trace_url_of(project_id@, trace_id@),
{
    let a = concat("https://cloudtrace.googleapis.com/v2/projects/", project_id);
    let b = concat(a.as_str(), "/traces/");
    concat(b.as_str(), trace_id)
}

/// The position of the first header named `authorization` at or after
/// `from`, or the number of headers.
pub open spec fn first_authorization(h: Seq<(String, Vec<u8>)>, from: int) -> int
    decreases h.len() - from,
{
    if from < 0 || from >= h.len() {
        h.len() as int
    } else if h[from].0@ == "authorization"@ {
        from
    } else {
        first_authorization(h, from + 1)
    }
}

/// `r` is the authorization value that the credentials' answer `answer`
/// gives for reading traces: the answer's error; for new headers (names in
/// lower case, as `http::HeaderMap` keeps them) the value of the first
/// `authorization` header, or an error when there is none; and an error for
/// an answer that the headers are unchanged (`None`).
pub open spec fn authorization_for(
    r: Result<Vec<u8>, String>,
    answer: Result<Option<Seq<(String, Vec<u8>)>>, String>,
) -> bool {
    match answer {
        Err(e) => r matches Err(m) && m@ == e@,
        Ok(None) => r matches Err(m) && m@ == "Unexpected NotModified"@,
        Ok(Some(h)) => {
            let k = first_authorization(h, 0);
            if k < h.len() {
                r matches Ok(v) && v@ == h[k].1@
            } else {
                r matches Err(m) && m@ == "No Authorization header"@
            }
        },
    }
}

fn find_authorization(h: &Vec<(String, Vec<u8>)>) -> (k: usize)
    ensures
        k as int == first_authorization(h@, 0),
{
    let n = h.len();
    let mut i: usize = 0;
    while i < n
        invariant
            n == h@.len(),
            i <= n,
            first_authorization(h@, 0) == first_authorization(h@, i as int),
        decreases n - i,
    {
        if str_eq(h[i].0.as_str(), "authorization") {
            assert(first_authorization(h@, i as int) == i);
            return i;
        }
        i += 1;
    }
    n
}

/// The authorization value for reading traces, from the credentials'
/// answer.
pub fn authorization_from(answer: Result<Option<Vec<(String, Vec<u8>)>>, String>) -> (r: Result<
    Vec<u8>,
    String,
>)
    ensures
        authorization_for(
            r,
            match answer {
                Err(e) => Err(e),
                Ok(None) => Ok(None),
                Ok(Some(h)) => Ok(Some(h@)),
            },
        ),
{
    match answer {
        Err(e) => Err(e),
        Ok(None) => Err(to_owned("Unexpected NotModified")),
        Ok(Some(h)) => {
            let k = find_authorization(&h);
            if k < h.len() {
                let v = h[k].1.clone();
                assert(v@ =~= h@[k as int].1@);
                return Ok(v);
            }
            Err(to_owned("No Authorization header"))
        },
    }
}

/// One span of a trace as the backend returns it: its display name, its
/// id and its parent's id, each when present.
pub struct TraceSpan {
    pub display_name: Option<String>,
    pub span_id: Option<String>,
    pub parent_span_id: Option<String>,
}

/// The mathematical value of a [`TraceSpan`].
pub struct TraceSpanView {
    pub display_name: Option<Seq<char>>,
    pub span_id: Option<Seq<char>>,
    pub parent_span_id: Option<Seq<char>>,
}

/// An optional text as an optional sequence of characters.
pub open spec fn opt_text(o: Option<String>) -> Option<Seq<char>> {
    match o {
        Some(x) => Some(x@),
        None => None,
    }
}

impl View for TraceSpan {
    type V = TraceSpanView;

    open spec fn view(&self) -> TraceSpanView {
        TraceSpanView {
            display_name: opt_text(self.display_name),
            span_id: opt_text(self.span_id),
            parent_span_id: opt_text(self.parent_span_id),
        }
    }
}

/// The views of a list of spans.
pub open spec fn span_views(v: Seq<TraceSpan>) -> Seq<TraceSpanView> {
    v.map_values(|s: TraceSpan| s@)
}

/// The optional text `o` is `s`.
pub open spec fn opt_is(o: Option<Seq<char>>, s: Seq<char>) -> bool {
    o == Some(s)
}

/// The position of the first span at or after `from` named `name`, or the
/// number of spans when none is.
pub open spec fn first_named(spans: Seq<TraceSpanView>, name: Seq<char>, from: int) -> int
    decreases spans.len() - from,
{
    if from < 0 || from >= spans.len() {
        spans.len() as int
    } else if opt_is(spans[from].display_name, name) {
        from
    } else {
        first_named(spans, name, from + 1)
    }
}

/// The position of the first span at or after `from` whose parent is
/// `parent`, or the number of spans when none is.
pub open spec fn first_child(spans: Seq<TraceSpanView>, parent: Seq<char>, from: int) -> int
    decreases spans.len() - from,
{
    if from < 0 || from >= spans.len() {
        spans.len() as int
    } else if opt_is(spans[from].parent_span_id, parent) {
        from
    } else {
        first_child(spans, parent, from + 1)
    }
}

/// The id of a span, or the empty text when it has none.
pub open spec fn span_id_or_empty(s: TraceSpanView) -> Seq<char> {
    match s.span_id {
        Some(x) => x,
        None => ""@,
    }
}

/// The name of a span, or `unknown` when it has none.
pub open spec fn name_or_unknown(s: TraceSpanView) -> Seq<char> {
    match s.display_name {
        Some(x) => x,
        None => "unknown"@,
    }
}

/// The name of the span under the root span named `root_name`: the first
/// span so named is the root, and the first span whose parent is the root's
/// id is its child; `None` when either is missing.
pub open spec fn child_of_root(spans: Seq<TraceSpanView>, root_name: Seq<char>) -> Option<Seq<char>> {
    let r = first_named(spans, root_name, 0);
    if r < spans.len() {
        let c = first_child(spans, span_id_or_empty(spans[r]), 0);
        if c < spans.len() {
            Some(name_or_unknown(spans[c]))
        } else {
            None
        }
    } else {
        None
    }
}

/// `first_named` is the position of the first span named `name` at or
/// after `from`, or the number of spans when none is.
proof fn lemma_first_named(spans: Seq<TraceSpanView>, name: Seq<char>, from: int, k: int)
    requires
        0 <= from <= k <= spans.len(),
        forall|j: int| from <= j < k ==> !opt_is(#[trigger] spans[j].display_name, name),
        k == spans.len() || opt_is(spans[k].display_name, name),
    ensures
        first_named(spans, name, from) == k,
    decreases k - from,
{
    if from < k {
        lemma_first_named(spans, name, from + 1, k);
    }
}

/// `first_child` is the position of the first span whose parent is
/// `parent` at or after `from`, or the number of spans when none is.
proof fn lemma_first_child(spans: Seq<TraceSpanView>, parent: Seq<char>, from: int, k: int)
    requires
        0 <= from <= k <= spans.len(),
        forall|j: int| from <= j < k ==> !opt_is(#[trigger] spans[j].parent_span_id, parent),
        k == spans.len() || opt_is(spans[k].parent_span_id, parent),
    ensures
        first_child(spans, parent, from) == k,
    decreases k - from,
{
    if from < k {
        lemma_first_child(spans, parent, from + 1, k);
    }
}

/// The span under the root: when span `r` is the first one named
/// `root_name` and span `c` is the first whose parent id is the id of `r`
/// (the empty text when `r` has none), the child found is `c`'s name
/// (`unknown` when it has none); when no span is named `root_name`, or no
/// span has the first such span as its parent, none is found.
pub proof fn lemma_child_of_root(spans: Seq<TraceSpanView>, root_name: Seq<char>, r: int, c: int)
    ensures
        (0 <= r < spans.len() && spans[r].display_name == Some(root_name) && (forall|k: int|
            0 <= k < r ==> #[trigger] spans[k].display_name != Some(root_name))) ==> {
            &&& (0 <= c < spans.len() && spans[c].parent_span_id == Some(
                span_id_or_empty(spans[r]),
            ) && (forall|k: int|
                0 <= k < c ==> #[trigger] spans[k].parent_span_id != Some(span_id_or_empty(spans[r]))))
                ==> child_of_root(spans, root_name) == Some(
                match spans[c].display_name {
                    Some(x) => x,
                    None => "unknown"@,
                },
            )
            &&& (forall|k: int|
                0 <= k < spans.len() ==> #[trigger] spans[k].parent_span_id != Some(
                    span_id_or_empty(spans[r]),
                )) ==> child_of_root(spans, root_name) is None
        },
        (forall|k: int| 0 <= k < spans.len() ==> #[trigger] spans[k].display_name != Some(root_name))
            ==> child_of_root(spans, root_name) is None,
{
    if forall|k: int| 0 <= k < spans.len() ==> #[trigger] spans[k].display_name != Some(root_name) {
        lemma_first_named(spans, root_name, 0, spans.len() as int);
    }
    if 0 <= r < spans.len() && spans[r].display_name == Some(root_name) && (forall|k: int|
        0 <= k < r ==> #[trigger] spans[k].display_name != Some(root_name)) {
        lemma_first_named(spans, root_name, 0, r);
        let id = span_id_or_empty(spans[r]);
        if 0 <= c < spans.len() && spans[c].parent_span_id == Some(id) && (forall|k: int|
            0 <= k < c ==> #[trigger] spans[k].parent_span_id != Some(id)) {
            lemma_first_child(spans, id, 0, c);
        }
        if forall|k: int| 0 <= k < spans.len() ==> #[trigger] spans[k].parent_span_id != Some(id) {
            lemma_first_child(spans, id, 0, spans.len() as int);
        }
    }
}

fn opt_eq(o: &Option<String>, s: &str) -> (r: bool)
    ensures
        r == opt_is(opt_text(*o), s@),
{
    match o {
        Some(x) => str_eq(x.as_str(), s),
        None => false,
    }
}

/// Finds the span under the root span named `root_name`, and gives its
/// name.
pub fn find_child_of_root(spans: &Vec<TraceSpan>, root_name: &str) -> (r: Option<String>)
    ensures
        match r {
            Some(n) => child_of_root(span_views(spans@), root_name@) == Some(n@),
            None => child_of_root(span_views(spans@), root_name@) is None,
        },
{
    let ghost sv = span_views(spans@);
    let n = spans.len();
    let mut i: usize = 0;
    let mut found = false;
    while i < n && !found
        invariant
            n == spans@.len(),
            sv == span_views(spans@),
            i <= n,
            found ==> i < n && opt_is(sv[i as int].display_name, root_name@),
            first_named(sv, root_name@, 0) == first_named(sv, root_name@, i as int),
        decreases n - i + (if found { 0int } else { 1int }),
    {
        if opt_eq(&spans[i].display_name, root_name) {
            found = true;
        } else {
            i += 1;
        }
    }
    if !found {
        return None;
    }
    assert(first_named(sv, root_name@, i as int) == i);
    let root_id = match &spans[i].span_id {
        Some(x) => x.clone(),
        None => to_owned(""),
    };
    proof {
        reveal_strlit("");
    }
    assert(root_id@ == span_id_or_empty(sv[i as int]));
    let mut j: usize = 0;
    let mut child = false;
    while j < n && !child
        invariant
            n == spans@.len(),
            sv == span_views(spans@),
            j <= n,
            child ==> j < n && opt_is(sv[j as int].parent_span_id, root_id@),
            first_child(sv, root_id@, 0) == first_child(sv, root_id@, j as int),
        decreases n - j + (if child { 0int } else { 1int }),
    {
        if opt_eq(&spans[j].parent_span_id, root_id.as_str()) {
            child = true;
        } else {
            j += 1;
        }
    }
    if !child {
        return None;
    }
    assert(first_child(sv, root_id@, j as int) == j);
    proof {
        reveal_strlit("unknown");
    }
    match &spans[j].display_name {
        Some(x) => Some(x.clone()),
        None => Some(to_owned("unknown")),
    }
}

/// What the Cloud Trace API body `body` holds: `None` when it is not JSON;
/// otherwise the spans of its `spans` array (`None` when there is no such
/// array), each with its `displayName.value`, `spanId` and `parentSpanId`
/// where they are strings.
pub uninterp spec fn trace_body_spans(body: Seq<char>) -> Option<Option<Seq<TraceSpanView>>>;

/// Parses a Cloud Trace API body with `serde_json::from_str` into a
/// `serde_json::Value` and reads its spans. The contract claims only that
/// the outcome is the one `trace_body_spans` names for the body.
#[verifier::external_body]
fn parse_trace_body(body: &str) -> (r: Option<Option<Vec<TraceSpan>>>)
    ensures
        match r {
            None => trace_body_spans(body@) is None,
            Some(None) => trace_body_spans(body@) == Some(None::<Seq<TraceSpanView>>),
            Some(Some(v)) => trace_body_spans(body@) == Some(Some(span_views(v@))),
        },
{
    let text = |v: &serde_json::Value, k: &str| v.get(k).and_then(|x| x.as_str()).map(String::from);
    let trace: serde_json::Value = serde_json::from_str(body).ok()?;
    Some(trace.get("spans").and_then(|s| s.as_array()).map(|a| a.iter().map(|s| TraceSpan {
        display_name: s.get("displayName").and_then(|n| text(n, "value")),
        span_id: text(s, "spanId"),
        parent_span_id: text(s, "parentSpanId"),
    }).collect()))
}

/// Whether one poll found the complete trace: no body (the trace is not
/// there yet) or a body without a spans array is not found; a body that is
/// not JSON is an error; otherwise the trace is found when it holds the
/// root span named `root_name` and a child of it.
pub fn poll_found(body: Option<&str>, root_name: &str) -> (r: Result<bool, ()>)
    ensures
        match body {
            None => r == Ok::<bool, ()>(false),
            Some(b) => match trace_body_spans(b@) {
                None => r is Err,
                Some(None) => r == Ok::<bool, ()>(false),
                Some(Some(spans)) => r == Ok::<bool, ()>(child_of_root(spans, root_name@) is Some),
            },
        },
{
    match body {
        None => Ok(false),
        Some(b) => match parse_trace_body(b) {
            None => Err(()),
            Some(None) => Ok(false),
            Some(Some(spans)) => Ok(find_child_of_root(&spans, root_name).is_some()),
        },
    }
}

/// What the check does after one attempt to read the trace.
#[derive(Debug, PartialEq, Eq)]
pub enum PollStep {
    /// The trace is complete: the check passes.
    Found,
    /// Wait this many seconds and ask again.
    RetryAfter(u64),
    /// Wait this many seconds and give up: the trace never arrived.
    GiveUpAfter(u64),
}

/// The step after attempt number `attempt` (from zero): a complete trace
/// ends the check; otherwise the check waits and asks again, until the
/// last attempt.
pub fn next_poll_step(attempt: u32, found: bool) -> (r: PollStep)
    requires
        attempt < POLL_ATTEMPTS,
    ensures
        found ==> r == PollStep::Found,
        !found && attempt + 1 < POLL_ATTEMPTS ==> r == PollStep::RetryAfter(POLL_DELAY_SECS),
        !found && attempt + 1 == POLL_ATTEMPTS ==> r == PollStep::GiveUpAfter(POLL_DELAY_SECS),
{
    if found {
        PollStep::Found
    } else if attempt + 1 < POLL_ATTEMPTS {
        PollStep::RetryAfter(POLL_DELAY_SECS)
    } else {
        PollStep::GiveUpAfter(POLL_DELAY_SECS)
    }
}

} // verus!
