//! Authentication headers: converting credential headers to plain fields,
//! the errors of doing so, injecting them into gRPC metadata, and the
//! schedule of refreshing them.

use vstd::prelude::*;
use vstd::string::*;
use crate::bytes::{header_text, header_value_to_str};
use crate::text::{concat, to_owned};

verus! {

/// Errors of obtaining authentication headers.
#[derive(Debug, PartialEq, Eq)]
pub enum AuthError {
    /// The credentials could not produce headers.
    CreateHeaders(String),
    /// A header value is not text.
    ConvertHeaders(String),
    /// The credentials could not be initialized.
    Initialize(String),
}

/// The display text of an [`AuthError`].
pub open spec fn auth_error_text(e: AuthError) -> Seq<char> {
    match e {
        AuthError::CreateHeaders(m) => "Cannot create authentication headers: "@ + m@,
        AuthError::ConvertHeaders(m) => "Cannot convert authentication headers to strings: "@ + m@,
        AuthError::Initialize(m) => "Cannot initialize credentials: "@ + m@,
    }
}

impl AuthError {
    /// The text that describes this error.
    pub fn message(&self) -> (r: String)
        ensures
            r@ == auth_error_text(*self),
    {
        match self {
            AuthError::CreateHeaders(m) => concat("Cannot create authentication headers: ", m.as_str()),
            AuthError::ConvertHeaders(m) => concat(
                "Cannot convert authentication headers to strings: ",
                m.as_str(),
            ),
            AuthError::Initialize(m) => concat("Cannot initialize credentials: ", m.as_str()),
        }
    }
}

/// One authentication header as text.
#[derive(Debug, PartialEq, Eq)]
pub struct HeaderField {
    pub key: String,
    pub value: String,
}

/// The debug text of the error that `http::HeaderValue::to_str` returns.
pub open spec fn to_str_error_text() -> Seq<char> {
    "ToStrError { _priv: () }"@
}

/// `r` is the outcome of converting the header `key: value` to text.
pub open spec fn header_field_for(r: Result<HeaderField, AuthError>, key: Seq<char>, value: Seq<u8>) -> bool {
    match header_text(value) {
        Some(t) => r matches Ok(f) && f.key@ == key && f.value@ == t,
        None => r matches Err(AuthError::ConvertHeaders(m)) && m@ == to_str_error_text(),
    }
}

impl HeaderField {
    /// Converts the header `key: value` to text; the value must be a tab
    /// or visible ASCII throughout.
    pub fn from_header(key: &str, value: &[u8]) -> (r: Result<Self, AuthError>)
        ensures
            header_field_for(r, key@, value@),
    {
        match header_value_to_str(value) {
            Some(v) => Ok(HeaderField { key: to_owned(key), value: v }),
            None => Err(AuthError::ConvertHeaders(to_owned("ToStrError { _priv: () }"))),
        }
    }
}

/// `r` is the outcome of converting every header of `entries`, in order:
/// the fields when every value is text, and otherwise the conversion error.
pub open spec fn header_fields_for(
    r: Result<Vec<HeaderField>, AuthError>,
    entries: Seq<(String, Vec<u8>)>,
) -> bool {
    if forall|i: int| 0 <= i < entries.len() ==> (#[trigger] header_text(entries[i].1@)) is Some {
        r matches Ok(v) && v@.len() == entries.len() && forall|i: int|
            0 <= i < entries.len() ==> (#[trigger] v@[i]).key@ == entries[i].0@ && Some(v@[i].value@)
                == header_text(entries[i].1@)
    } else {
        r matches Err(AuthError::ConvertHeaders(m)) && m@ == to_str_error_text()
    }
}

/// Converts every header to a text field, stopping at the first value that
/// is not text.
pub fn header_fields(entries: &Vec<(String, Vec<u8>)>) -> (r: Result<Vec<HeaderField>, AuthError>)
    ensures
        header_fields_for(r, entries@),
{
    let n = entries.len();
    let mut out: Vec<HeaderField> = Vec::new();
    let mut i: usize = 0;
    while i < n
        invariant
            n == entries@.len(),
            i <= n,
            out@.len() == i,
            forall|k: int| 0 <= k < i ==> (#[trigger] header_text(entries@[k].1@)) is Some,
            forall|k: int|
                0 <= k < i ==> (#[trigger] out@[k]).key@ == entries@[k].0@ && Some(out@[k].value@)
                    == header_text(entries@[k].1@),
        decreases n - i,
    {
        match HeaderField::from_header(entries[i].0.as_str(), entries[i].1.as_slice()) {
            Ok(f) => {
                out.push(f);
            },
            Err(e) => {
                assert(header_text(entries@[i as int].1@) is None);
                return Err(e);
            },
        }
        i += 1;
    }
    Ok(out)
}

/// What a request for authentication headers produced.
pub enum HeadersOutcome {
    /// The credentials failed, with the error's debug text.
    Failed(String),
    /// The task that asked for the headers failed, with its debug text.
    TaskFailed(String),
    /// The credentials report that the headers have not changed, in the
    /// task with the given id (its debug text, as `Id(7)`).
    NotModified(String),
    /// New headers, as names and raw values.
    New(Vec<(String, Vec<u8>)>),
}

/// The text of the error for credentials that report the headers unchanged
/// in the task `task_id`: the task panics on that answer, which caching
/// never gives, and its failure is reported with the debug text of its
/// join error.
pub open spec fn not_modified_text(task_id: Seq<char>) -> Seq<char> {
    "Tokio spawn failed: JoinError::Panic("@ + task_id
        + ", \"internal error: entered unreachable code: caching is not implemented yet\", ...)"@
}

/// `r` is what a request for headers that produced `outcome` returns.
pub open spec fn headers_result_for(r: Result<Vec<HeaderField>, AuthError>, outcome: HeadersOutcome) -> bool {
    match outcome {
        HeadersOutcome::Failed(m) => r matches Err(AuthError::CreateHeaders(x)) && x@ == m@,
        HeadersOutcome::TaskFailed(m) => r matches Err(AuthError::CreateHeaders(x)) && x@
            == "Tokio spawn failed: "@ + m@,
        HeadersOutcome::NotModified(id) => r matches Err(AuthError::CreateHeaders(x)) && x@
            == not_modified_text(id@),
        HeadersOutcome::New(data) => header_fields_for(r, data@),
    }
}

/// The authentication headers as text fields, from what the credentials
/// produced. Headers are requested without caching, so an answer that they
/// are unchanged fails the request task.
pub fn headers_result(outcome: HeadersOutcome) -> (r: Result<Vec<HeaderField>, AuthError>)
    ensures
        headers_result_for(r, outcome),
{
    match outcome {
        HeadersOutcome::Failed(m) => Err(AuthError::CreateHeaders(m)),
        HeadersOutcome::TaskFailed(m) => Err(
            AuthError::CreateHeaders(concat("Tokio spawn failed: ", m.as_str())),
        ),
        HeadersOutcome::NotModified(id) => {
            let a = concat("Tokio spawn failed: JoinError::Panic(", id.as_str());
            Err(
                AuthError::CreateHeaders(
                    concat(
                        a.as_str(),
                        ", \"internal error: entered unreachable code: caching is not implemented yet\", ...)",
                    ),
                ),
            )
        },
        HeadersOutcome::New(data) => header_fields(&data),
    }
}

/// The bytes of a text whose characters are ASCII.
pub open spec fn ascii_bytes(s: Seq<char>) -> Seq<u8> {
    s.map_values(|c: char| c as u8)
}

/// A byte that `http::HeaderName` accepts in a name (its `HEADER_CHARS`
/// table): a letter, a digit, or one of ``!#$%&'*+-.^_`|~``.
pub open spec fn header_name_byte(b: u8) -> bool {
    b == 33 || (35 <= b <= 39) || b == 42 || b == 43 || b == 45 || b == 46 || (48 <= b <= 57)
        || (65 <= b <= 90) || (94 <= b <= 122) || b == 124 || b == 126
}

/// The byte in lower case, as `HeaderName` normalizes names.
pub open spec fn lower_byte(b: u8) -> u8 {
    if 65 <= b <= 90 {
        (b + 32) as u8
    } else {
        b
    }
}

/// The name, in lower case, ends with `-bin` (the suffix of binary keys).
pub open spec fn ends_with_bin(name: Seq<u8>) -> bool {
    let n = name.len() as int;
    n >= 4 && name[n - 4] == 45u8 && lower_byte(name[n - 3]) == 98u8 && lower_byte(name[n - 2]) == 105u8
        && lower_byte(name[n - 1]) == 110u8
}

/// Whether `tonic::metadata::MetadataKey::<Ascii>::from_bytes` accepts a
/// header name: `http::HeaderName::from_bytes` must accept it (between 1
/// and 65535 bytes, each a header name byte), and the normalized name must
/// not end in `-bin`.
pub open spec fn metadata_key_accepts(name: Seq<u8>) -> bool {
    &&& 1 <= name.len() <= 65535
    &&& forall|i: int| 0 <= i < name.len() ==> #[trigger] header_name_byte(name[i])
    &&& !ends_with_bin(name)
}

/// `tonic::metadata::MetadataKey::<Ascii>::from_bytes`: whether the name
/// is a valid ASCII metadata key, as `metadata_key_accepts` states from the
/// sources of `tonic` and `http`.
#[verifier::external_body]
fn metadata_key_valid(name: &[u8]) -> (r: bool)
    ensures
        r == metadata_key_accepts(name@),
{
    tonic::metadata::MetadataKey::<tonic::metadata::Ascii>::from_bytes(name).is_ok()
}

/// A byte that `http::HeaderValue::from_bytes` accepts.
pub open spec fn header_value_byte(b: u8) -> bool {
    (b >= 32 && b != 127) || b == 9
}

/// `<tonic::metadata::MetadataValue<Ascii> as TryFrom<&[u8]>>::try_from`:
/// whether the bytes form an ASCII metadata value. The source delegates to
/// `http::HeaderValue::from_bytes`, which accepts exactly the bytes that
/// are a tab or are at least 32 and not 127.
#[verifier::external_body]
fn metadata_value_valid(value: &[u8]) -> (r: bool)
    ensures
        r == forall|i: int| 0 <= i < value@.len() ==> #[trigger] header_value_byte(value@[i]),
{
    tonic::metadata::MetadataValue::<tonic::metadata::Ascii>::try_from(value).is_ok()
}

/// Why a request could not carry the authentication metadata.
#[derive(Debug, PartialEq, Eq)]
pub enum InterceptError {
    /// A header could not become metadata (an internal error).
    Internal(String),
    /// No headers are available yet (unauthenticated).
    Unauthenticated(String),
}

/// The message of a request made before any headers are available.
pub open spec fn not_ready_text() -> Seq<char> {
    "GCP credentials not yet available"@
}

/// The message for a header name that is no metadata key.
pub open spec fn invalid_name_text() -> Seq<char> {
    "invalid header name: invalid gRPC metadata key name"@
}

/// The message for a header value that is no metadata value.
pub open spec fn invalid_value_text() -> Seq<char> {
    "invalid header value: failed to parse metadata value"@
}

/// The first header (by position) whose name or value cannot become
/// metadata, checking from `from` on; `len` when there is none.
pub open spec fn first_invalid(h: Seq<(String, Vec<u8>)>, from: int) -> int
    decreases h.len() - from,
{
    if from < 0 || from >= h.len() {
        h.len() as int
    } else if !metadata_key_accepts(ascii_bytes(h[from].0@))
        || !(forall|i: int|
        0 <= i < h[from].1@.len() ==> #[trigger] header_value_byte(h[from].1@[i])) {
        from
    } else {
        first_invalid(h, from + 1)
    }
}

/// `r` is what intercepting a request with the cached headers `headers`
/// gives: without headers, an unauthenticated error; with headers, either
/// the error of the first header that cannot become metadata or every
/// header, in order, to insert into the request's metadata.
pub open spec fn intercept_for(
    r: Result<Vec<(String, Vec<u8>)>, InterceptError>,
    headers: Option<Seq<(String, Vec<u8>)>>,
) -> bool {
    match headers {
        None => r matches Err(InterceptError::Unauthenticated(m)) && m@ == not_ready_text(),
        Some(h) => {
            let k = first_invalid(h, 0);
            if k < h.len() {
                if !metadata_key_accepts(ascii_bytes(h[k].0@)) {
                    r matches Err(InterceptError::Internal(m)) && m@ == invalid_name_text()
                } else {
                    r matches Err(InterceptError::Internal(m)) && m@ == invalid_value_text()
                }
            } else {
                r matches Ok(v) && v@.len() == h.len() && forall|i: int|
                    0 <= i < h.len() ==> (#[trigger] v@[i]).0@ == h[i].0@ && v@[i].1@ == h[i].1@
            }
        },
    }
}

proof fn lemma_first_invalid_skip(h: Seq<(String, Vec<u8>)>, from: int, upto: int)
    requires
        0 <= from <= upto <= h.len(),
        forall|j: int|
            from <= j < upto ==> metadata_key_accepts(ascii_bytes(h[j].0@))
                && (forall|i: int| 0 <= i < h[j].1@.len() ==> #[trigger] header_value_byte(h[j].1@[i])),
    ensures
        first_invalid(h, from) == first_invalid(h, upto),
    decreases upto - from,
{
    if from < upto {
        lemma_first_invalid_skip(h, from + 1, upto);
    }
}

fn str_bytes(s: &str) -> (r: Vec<u8>)
    requires
        vstd::string::is_ascii(s),
    ensures
        r@ == ascii_bytes(s@),
{
    proof {
        vstd::string::is_ascii_spec_bytes(s);
    }
    let b = s.as_bytes();
    let n = b.len();
    let mut out: Vec<u8> = Vec::new();
    let mut i: usize = 0;
    while i < n
        invariant
            n == b@.len(),
            b@ == s.spec_bytes(),
            i <= n,
            out@ =~= b@.subrange(0, i as int),
        decreases n - i,
    {
        out.push(b[i]);
        i += 1;
    }
    assert(out@ =~= ascii_bytes(s@));
    out
}

/// Decides the metadata a request carries from the cached authentication
/// headers, as the interceptor does: every header must be a valid ASCII
/// metadata key and value. Header names are lowercase ASCII, as
/// `http::HeaderName` keeps them.
pub fn intercept_headers(headers: Option<&Vec<(String, Vec<u8>)>>) -> (r: Result<
    Vec<(String, Vec<u8>)>,
    InterceptError,
>)
    requires
        match headers {
            Some(h) => forall|i: int| 0 <= i < h@.len() ==> vstd::utf8::is_ascii_chars(#[trigger] h@[i].0@),
            None => true,
        },
    ensures
        intercept_for(
            r,
            match headers {
                Some(h) => Some(h@),
                None => None,
            },
        ),
{
    match headers {
        None => Err(InterceptError::Unauthenticated(to_owned("GCP credentials not yet available"))),
        Some(h) => {
            let n = h.len();
            let mut out: Vec<(String, Vec<u8>)> = Vec::new();
            let mut i: usize = 0;
            while i < n
                invariant
                    headers == Some(h),
                    n == h@.len(),
                    i <= n,
                    forall|k: int| 0 <= k < n ==> vstd::utf8::is_ascii_chars(#[trigger] h@[k].0@),
                    out@.len() == i,
                    forall|k: int|
                        0 <= k < i ==> (#[trigger] out@[k]).0@ == h@[k].0@ && out@[k].1@ == h@[k].1@,
                    first_invalid(h@, 0) == first_invalid(h@, i as int),
                decreases n - i,
            {
                let name = h[i].0.as_str();
                assert(vstd::utf8::is_ascii_chars(h@[i as int].0@));
                let name_bytes = str_bytes(name);
                if !metadata_key_valid(name_bytes.as_slice()) {
                    assert(first_invalid(h@, i as int) == i);
                    return Err(InterceptError::Internal(
                        to_owned("invalid header name: invalid gRPC metadata key name"),
                    ));
                }
                if !metadata_value_valid(h[i].1.as_slice()) {
                    assert(first_invalid(h@, i as int) == i);
                    return Err(InterceptError::Internal(
                        to_owned("invalid header value: failed to parse metadata value"),
                    ));
                }
                proof {
                    lemma_first_invalid_skip(h@, i as int, i + 1);
                }
                out.push((h[i].0.clone(), h[i].1.clone()));
                i += 1;
            }
            assert(first_invalid(h@, n as int) == n);
            Ok(out)
        },
    }
}

/// Seconds between refreshes of the authentication headers.
pub const REFRESH_INTERVAL_SECS: u64 = 300;

/// Seconds to wait before retrying after a failed refresh.
pub const ERROR_RETRY_DELAY_SECS: u64 = 10;

/// What one refresh of the authentication headers produced.
#[derive(Debug, PartialEq, Eq)]
pub enum RefreshOutcome {
    /// New headers.
    New,
    /// The credentials report the headers unchanged.
    NotModified,
    /// The refresh failed.
    Failed,
}

/// What the refresh loop does next.
#[derive(Debug, PartialEq, Eq)]
pub enum RefreshStep {
    /// Publish the new headers, then go on as `after_publish` says.
    Publish,
    /// Sleep this many seconds, then refresh again.
    Wait(u64),
    /// Stop refreshing.
    Stop,
}

/// The step after a refresh with the given outcome: new headers are
/// published, unchanged headers wait a refresh interval, and a failure
/// waits the retry delay.
pub open spec fn refresh_step_of(outcome: RefreshOutcome) -> RefreshStep {
    match outcome {
        RefreshOutcome::New => RefreshStep::Publish,
        RefreshOutcome::NotModified => RefreshStep::Wait(REFRESH_INTERVAL_SECS),
        RefreshOutcome::Failed => RefreshStep::Wait(ERROR_RETRY_DELAY_SECS),
    }
}

/// The step after publishing: wait a refresh interval when the headers
/// were delivered, stop when nobody receives them.
pub open spec fn after_publish_of(delivered: bool) -> RefreshStep {
    if delivered {
        RefreshStep::Wait(REFRESH_INTERVAL_SECS)
    } else {
        RefreshStep::Stop
    }
}

/// Decides the step after a refresh with the given outcome.
pub fn next_refresh_step(outcome: &RefreshOutcome) -> (r: RefreshStep)
    ensures
        r == refresh_step_of(*outcome),
{
    match outcome {
        RefreshOutcome::New => RefreshStep::Publish,
        RefreshOutcome::NotModified => RefreshStep::Wait(REFRESH_INTERVAL_SECS),
        RefreshOutcome::Failed => RefreshStep::Wait(ERROR_RETRY_DELAY_SECS),
    }
}

/// Decides the step after publishing new headers.
pub fn after_publish(delivered: bool) -> (r: RefreshStep)
    ensures
        r == after_publish_of(delivered),
{
    if delivered {
        RefreshStep::Wait(REFRESH_INTERVAL_SECS)
    } else {
        RefreshStep::Stop
    }
}

/// The steps the refresh loop takes for one refresh: the outcome's step,
/// and after a publish, the step that delivery decides.
pub open spec fn refresh_event_steps(outcome: RefreshOutcome, delivered: bool) -> Seq<RefreshStep> {
    if refresh_step_of(outcome) == RefreshStep::Publish {
        seq![RefreshStep::Publish, after_publish_of(delivered)]
    } else {
        seq![refresh_step_of(outcome)]
    }
}

/// The steps of a run of the refresh loop over successive refreshes (each
/// an outcome and, for new headers, whether they were delivered), up to
/// the step that stops the loop.
pub open spec fn refresh_run(events: Seq<(RefreshOutcome, bool)>) -> Seq<RefreshStep>
    decreases events.len(),
{
    if events.len() == 0 {
        seq![]
    } else {
        let first = refresh_event_steps(events[0].0, events[0].1);
        if first.last() == RefreshStep::Stop {
            first
        } else {
            first + refresh_run(events.drop_first())
        }
    }
}

/// The steps of the first `n` refreshes, one after another.
pub open spec fn refresh_steps_upto(events: Seq<(RefreshOutcome, bool)>, n: int) -> Seq<RefreshStep>
    decreases n,
{
    if n <= 0 {
        seq![]
    } else {
        refresh_steps_upto(events, n - 1) + refresh_event_steps(events[n - 1].0, events[n - 1].1)
    }
}

/// The position of the first refresh whose new headers nobody received,
/// or the number of refreshes.
pub open spec fn first_undelivered(events: Seq<(RefreshOutcome, bool)>) -> int
    decreases events.len(),
{
    if events.len() == 0 {
        0
    } else if events[0].0 == RefreshOutcome::New && !events[0].1 {
        0
    } else {
        1 + first_undelivered(events.drop_first())
    }
}

proof fn lemma_steps_upto_shift(events: Seq<(RefreshOutcome, bool)>, n: int)
    requires
        0 <= n < events.len(),
    ensures
        refresh_steps_upto(events, n + 1) == refresh_event_steps(events[0].0, events[0].1)
            + refresh_steps_upto(events.drop_first(), n),
    decreases n,
{
    if n > 0 {
        lemma_steps_upto_shift(events, n - 1);
        assert(events.drop_first()[n - 1] == events[n]);
        assert(refresh_steps_upto(events, n + 1) =~= refresh_event_steps(events[0].0, events[0].1)
            + refresh_steps_upto(events.drop_first(), n));
    } else {
        assert(refresh_steps_upto(events, 0) =~= Seq::<RefreshStep>::empty());
        assert(refresh_steps_upto(events.drop_first(), 0) =~= Seq::<RefreshStep>::empty());
        assert(refresh_steps_upto(events, 1) =~= refresh_event_steps(events[0].0, events[0].1)
            + refresh_steps_upto(events.drop_first(), 0));
    }
}

/// A run of the refresh loop is the refreshes' steps, one after another,
/// up to and including the first refresh whose new headers nobody
/// received: failures and unchanged headers never end it, each new set of
/// headers is published in order, and the loop stops exactly after a
/// delivery fails, with that stop as its last step.
pub proof fn lemma_refresh_run(events: Seq<(RefreshOutcome, bool)>)
    ensures
        ({
            let k = first_undelivered(events);
            &&& 0 <= k <= events.len()
            &&& refresh_run(events) == refresh_steps_upto(
                events,
                if k < events.len() {
                    k + 1
                } else {
                    k
                },
            )
            &&& (k < events.len() <==> refresh_run(events).contains(RefreshStep::Stop))
            &&& forall|j: int|
                0 <= j < refresh_run(events).len() - 1 ==> refresh_run(events)[j] != RefreshStep::Stop
        }),
    decreases events.len(),
{
    if events.len() > 0 {
        let rest = events.drop_first();
        lemma_refresh_run(rest);
        let first = refresh_event_steps(events[0].0, events[0].1);
        let k = first_undelivered(events);
        let kr = first_undelivered(rest);
        assert(forall|j: int| 0 <= j < first.len() - 1 ==> first[j] != RefreshStep::Stop);
        if first.last() == RefreshStep::Stop {
            assert(k == 0);
            lemma_steps_upto_shift(events, 0);
            assert(refresh_steps_upto(rest, 0) =~= Seq::<RefreshStep>::empty());
            assert(refresh_run(events) =~= refresh_steps_upto(events, 1));
            assert(first.contains(RefreshStep::Stop)) by {
                assert(first[first.len() - 1] == RefreshStep::Stop);
            }
        } else {
            assert(k == kr + 1);
            let m = if kr < rest.len() { kr + 1 } else { kr };
            lemma_steps_upto_shift(events, m);
            let run = refresh_run(events);
            let rr = refresh_run(rest);
            assert(run == first + rr);
            assert(!first.contains(RefreshStep::Stop)) by {
                if first.contains(RefreshStep::Stop) {
                    let j = choose|j: int| 0 <= j < first.len() && first[j] == RefreshStep::Stop;
                }
            }
            assert(run.contains(RefreshStep::Stop) <==> rr.contains(RefreshStep::Stop)) by {
                if run.contains(RefreshStep::Stop) {
                    let j = choose|j: int| 0 <= j < run.len() && run[j] == RefreshStep::Stop;
                    if j >= first.len() {
                        assert(rr[j - first.len()] == RefreshStep::Stop);
                    }
                }
                if rr.contains(RefreshStep::Stop) {
                    let j = choose|j: int| 0 <= j < rr.len() && rr[j] == RefreshStep::Stop;
                    assert(run[j + first.len()] == RefreshStep::Stop);
                }
            }
            assert forall|j: int| 0 <= j < run.len() - 1 implies run[j] != RefreshStep::Stop by {
                if j >= first.len() {
                    assert(run[j] == rr[j - first.len()]);
                } else {
                    assert(run[j] == first[j]);
                }
            }
        }
    }
}

} // verus!
