//! Resumable uploads: the request that starts one, and what the responses
//! to starting and querying one mean.

use vstd::prelude::*;
use crate::bytes::{
    all_visible_ascii, header_text, header_value_to_str, parse_u16, parse_u64, parse_unsigned,
    all_digits, digits_value, is_digit,
    strip_bytes_prefix, visible_ascii,
};
use crate::http_tracing::{is_success, status_success};
use crate::text::{concat, strip_prefix, strip_prefix_spec, to_owned};

verus! {

/// The status code with which a query reports an upload that is not
/// complete yet (308, "Permanent Redirect").
pub const RESUME_INCOMPLETE: u16 = 308;

/// The bytes `bytes=0-` that start the `Range` header of a query response.
pub open spec fn range_prefix() -> Seq<u8> {
    seq![98u8, 121u8, 116u8, 101u8, 115u8, 61u8, 48u8, 45u8]
}

/// The last persisted byte that a query response's `Range` header
/// reports: 0 when the header is absent, and otherwise the number after
/// `bytes=0-`; `None` when the header has another form or the number does
/// not fit in a `u64`.
pub open spec fn range_end(range: Option<Seq<u8>>) -> Option<nat> {
    match range {
        None => Some(0),
        Some(b) => match strip_prefix_spec(b, range_prefix()) {
            Some(rest) => parse_unsigned(rest, u64::MAX as nat),
            None => None,
        },
    }
}

/// Reads the last persisted byte from the `Range` header of a query
/// response. A missing header means nothing is persisted; uploads are
/// sequential, so a present header always starts at byte zero.
pub fn parse_range_end(range: Option<&[u8]>) -> (r: Option<u64>)
    ensures
        match r {
            Some(e) => range_end(
                match range {
                    Some(b) => Some(b@),
                    None => None,
                },
            ) == Some(e as nat),
            None => range_end(
                match range {
                    Some(b) => Some(b@),
                    None => None,
                },
            ) is None,
        },
{
    match range {
        None => Some(0u64),
        Some(b) => {
            let prefix: [u8; 8] = [98u8, 121u8, 116u8, 101u8, 115u8, 61u8, 48u8, 45u8];
            assert(prefix@ =~= range_prefix());
            match strip_bytes_prefix(b, &prefix) {
                Some(rest) => parse_u64(rest.as_slice()),
                None => None,
            }
        },
    }
}

/// The number of persisted bytes that a query response's `Range` header
/// reports: none when the header is absent, and otherwise the size of the
/// inclusive range `bytes=0-N`, N + 1 (`bytes=0-999` means 1000 bytes);
/// `None` when the header has another form.
pub open spec fn persisted_size(range: Option<Seq<u8>>) -> Option<nat> {
    match range {
        None => Some(0),
        Some(_) => match range_end(range) {
            Some(e) => Some(e + 1),
            None => None,
        },
    }
}

/// The number of persisted bytes that a query response's `Range` header
/// reports; `None` when the header is malformed.
pub fn parse_range(range: Option<&[u8]>) -> (r: Option<u64>)
    requires
        range_end(
            match range {
                Some(b) => Some(b@),
                None => None,
            },
        ) != Some(u64::MAX as nat),
    ensures
        match r {
            Some(n) => persisted_size(
                match range {
                    Some(b) => Some(b@),
                    None => None,
                },
            ) == Some(n as nat),
            None => persisted_size(
                match range {
                    Some(b) => Some(b@),
                    None => None,
                },
            ) is None,
        },
{
    match range {
        None => Some(0),
        Some(_) => match parse_range_end(range) {
            Some(end) => Some(end + 1),
            None => None,
        },
    }
}

/// The bytes `bytes=0-`.
pub open spec fn bytes_zero_dash() -> Seq<u8> {
    seq![98u8, 121u8, 116u8, 101u8, 115u8, 61u8, 48u8, 45u8]
}

/// An absent `Range` header reports no persisted bytes, and the header
/// `bytes=0-N`, for the decimal digits of any N below `u64::MAX`, reports
/// N + 1 bytes, since the range is inclusive; a header that does not start
/// with `bytes=0-` reports nothing.
pub proof fn lemma_persisted_size_of_range(digits: Seq<u8>, other: Seq<u8>)
    ensures
        persisted_size(None) == Some(0nat),
        (digits.len() > 0 && all_digits(digits) && digits_value(digits) < u64::MAX) ==> persisted_size(
            Some(bytes_zero_dash() + digits),
        ) == Some(digits_value(digits) + 1),
        !(other.len() >= 8 && other.subrange(0, 8) == bytes_zero_dash()) ==> persisted_size(Some(other))
            is None,
{
    let b = bytes_zero_dash() + digits;
    assert(range_prefix() == bytes_zero_dash());
    assert(b.subrange(0, 8) =~= bytes_zero_dash());
    assert(b.subrange(8, b.len() as int) =~= digits);
    if digits.len() > 0 && all_digits(digits) {
        assert(is_digit(digits[0]));
    }
}

/// A query answered "resume incomplete" (308) reports the persisted size
/// of its `Range` header: 0 without the header, N + 1 for `bytes=0-N`, and
/// an error for a header of another form; any other 2xx answer carries the
/// finished object, and every other status is an error.
pub proof fn lemma_query_response(a: QueryUploadAction, status: u16, range: Option<Seq<u8>>, digits: Seq<u8>)
    requires
        query_action_for(a, status, range),
    ensures
        status == 308 && range is None ==> a == QueryUploadAction::Partial(0),
        (status == 308 && range == Some(bytes_zero_dash() + digits) && digits.len() > 0 && all_digits(digits)
            && digits_value(digits) < u64::MAX) ==> (a matches QueryUploadAction::Partial(n) && n as nat
            == digits_value(digits) + 1),
        status == 308 ==> (range matches Some(b) ==> (!(b.len() >= 8 && b.subrange(0, 8)
            == bytes_zero_dash()) ==> a == QueryUploadAction::HttpError)),
        (status != 308 && 200 <= status <= 299) ==> a == QueryUploadAction::Finalized,
        (status != 308 && !(200 <= status <= 299)) ==> a == QueryUploadAction::HttpError,
{
    lemma_persisted_size_of_range(digits, match range { Some(b) => b, None => seq![] });
}

/// The response that starts an upload: a status outside the 2xx class is an
/// error; a 2xx answer without `Location` is missing it; a `Location` whose
/// bytes are all visible ASCII (or tabs) is the upload URL, as text; any
/// other `Location` is invalid.
pub proof fn lemma_start_response(a: StartUploadAction, status: u16, location: Option<Seq<u8>>)
    requires
        start_action_for(a, status, location),
    ensures
        !(200 <= status <= 299) ==> a == StartUploadAction::HttpError,
        (200 <= status <= 299 && location is None) ==> a == StartUploadAction::MissingLocation,
        200 <= status <= 299 ==> (location matches Some(l) ==> ((forall|i: int|
            0 <= i < l.len() ==> (32 <= #[trigger] l[i] < 127 || l[i] == 9)) ==> (a matches StartUploadAction::Location(
            u,
        ) && Some(u@) == header_text(l)))),
        200 <= status <= 299 ==> (location matches Some(l) ==> ((exists|i: int|
            0 <= i < l.len() && !(32 <= #[trigger] l[i] < 127 || l[i] == 9)) ==> a
            == StartUploadAction::InvalidLocation)),
{
    if let Some(l) = location {
        if exists|i: int| 0 <= i < l.len() && !(32 <= #[trigger] l[i] < 127 || l[i] == 9) {
            let i = choose|i: int| 0 <= i < l.len() && !(32 <= #[trigger] l[i] < 127 || l[i] == 9);
            assert(!visible_ascii(l[i]));
        } else {
            assert forall|i: int| 0 <= i < l.len() implies #[trigger] visible_ascii(l[i]) by {
                assert(32 <= l[i] < 127 || l[i] == 9);
            }
        }
    }
}

/// The status code carried in a header: the header's text read as a
/// `u16`, or `default` when the header is absent, is not text, or is not
/// such a number.
pub open spec fn header_status(h: Option<Seq<u8>>, default: u16) -> u16 {
    match h {
        None => default,
        Some(b) => if all_visible_ascii(b) {
            match parse_unsigned(b, u16::MAX as nat) {
                Some(v) => v as u16,
                None => default,
            }
        } else {
            default
        },
    }
}

/// Reads a status code from a header value, falling back to `default`.
pub fn status_from_header(h: Option<&[u8]>, default: u16) -> (r: u16)
    ensures
        r == header_status(
            match h {
                Some(b) => Some(b@),
                None => None,
            },
            default,
        ),
{
    match h {
        None => default,
        Some(b) => {
            match header_value_to_str(b) {
                None => default,
                Some(_) => match parse_u16(b) {
                    Some(v) => v,
                    None => default,
                },
            }
        },
    }
}

/// A status code as `http::StatusCode::from_u16(code).unwrap_or(OK)` makes
/// it: codes from 100 to 999 stand, others become 200.
pub open spec fn valid_status_or_ok(code: u16) -> u16 {
    if 100 <= code <= 999 {
        code
    } else {
        200
    }
}

/// The status of a response that reports it in its `x-goog-status-code`
/// header: the header's code (200 when missing or unreadable), with
/// out-of-range codes read as 200.
pub fn reported_status(h: Option<&[u8]>) -> (r: u16)
    ensures
        r == valid_status_or_ok(
            header_status(
                match h {
                    Some(b) => Some(b@),
                    None => None,
                },
                200,
            ),
        ),
{
    let code = status_from_header(h, 200);
    if 100 <= code && code <= 999 {
        code
    } else {
        200
    }
}

/// The status code of an error built from a response that reports it in
/// its `x-goog-status-code` header: the header's code, or 0.
pub fn error_status_code(h: Option<&[u8]>) -> (r: u16)
    ensures
        r == header_status(
            match h {
                Some(b) => Some(b@),
                None => None,
            },
            0,
        ),
{
    status_from_header(h, 0)
}

/// What to make of the response that starts a resumable upload.
#[derive(Debug, PartialEq, Eq)]
pub enum StartUploadAction {
    /// The request failed: build an error from the response.
    HttpError,
    /// The response has no `Location` header.
    MissingLocation,
    /// The `Location` header is not text.
    InvalidLocation,
    /// The upload URL.
    Location(String),
}

/// The action `a` is what a start response with `status` and the
/// `Location` header `location` calls for.
pub open spec fn start_action_for(a: StartUploadAction, status: u16, location: Option<Seq<u8>>) -> bool {
    if !status_success(status) {
        a == StartUploadAction::HttpError
    } else {
        match location {
            None => a == StartUploadAction::MissingLocation,
            Some(l) => match header_text(l) {
                None => a == StartUploadAction::InvalidLocation,
                Some(t) => a matches StartUploadAction::Location(u) && u@ == t,
            },
        }
    }
}

/// Decides what the response that starts a resumable upload means: an
/// unsuccessful status is an error; otherwise the `Location` header must be
/// present and be text, and it is the upload URL.
pub fn start_upload_action(status: u16, location: Option<&[u8]>) -> (r: StartUploadAction)
    ensures
        start_action_for(
            r,
            status,
            match location {
                Some(l) => Some(l@),
                None => None,
            },
        ),
{
    if !is_success(status) {
        return StartUploadAction::HttpError;
    }
    match location {
        None => StartUploadAction::MissingLocation,
        Some(l) => match header_value_to_str(l) {
            None => StartUploadAction::InvalidLocation,
            Some(t) => StartUploadAction::Location(t),
        },
    }
}

/// What to make of the response to a query of a resumable upload.
#[derive(Debug, PartialEq, Eq)]
pub enum QueryUploadAction {
    /// The upload is incomplete and this many bytes are persisted.
    Partial(u64),
    /// The upload is complete: the body holds the object.
    Finalized,
    /// The request failed, or the response is malformed: build an error
    /// from the response.
    HttpError,
}

/// The action `a` is what a query response with `status` and the `Range`
/// header `range` calls for.
pub open spec fn query_action_for(a: QueryUploadAction, status: u16, range: Option<Seq<u8>>) -> bool {
    if status == RESUME_INCOMPLETE {
        match persisted_size(range) {
            Some(n) => a matches QueryUploadAction::Partial(m) && m as nat == n,
            None => a == QueryUploadAction::HttpError,
        }
    } else if status_success(status) {
        a == QueryUploadAction::Finalized
    } else {
        a == QueryUploadAction::HttpError
    }
}

/// Decides what the response to a query of a resumable upload means:
/// "resume incomplete" reports the persisted size from its `Range`
/// header, another success carries the finished object, and anything else
/// is an error.
pub fn query_upload_action(status: u16, range: Option<&[u8]>) -> (r: QueryUploadAction)
    requires
        status == RESUME_INCOMPLETE ==> range_end(
            match range {
                Some(b) => Some(b@),
                None => None,
            },
        ) != Some(u64::MAX as nat),
    ensures
        query_action_for(
            r,
            status,
            match range {
                Some(b) => Some(b@),
                None => None,
            },
        ),
{
    if status == RESUME_INCOMPLETE {
        match parse_range(range) {
            Some(n) => QueryUploadAction::Partial(n),
            None => QueryUploadAction::HttpError,
        }
    } else if is_success(status) {
        QueryUploadAction::Finalized
    } else {
        QueryUploadAction::HttpError
    }
}

/// A query parameter's value.
#[derive(Debug, PartialEq, Eq)]
pub enum QueryValue {
    Text(String),
    Int(i64),
}

/// The mathematical value of a query parameter.
pub enum QueryValueView {
    Text(Seq<char>),
    Int(int),
}

/// The view of a query parameter's value.
pub open spec fn query_value_view(v: QueryValue) -> QueryValueView {
    match v {
        QueryValue::Text(s) => QueryValueView::Text(s@),
        QueryValue::Int(i) => QueryValueView::Int(i as int),
    }
}

/// The views of a list of query parameters.
pub open spec fn query_views(q: Seq<(String, QueryValue)>) -> Seq<(Seq<char>, QueryValueView)> {
    q.map_values(|p: (String, QueryValue)| (p.0@, query_value_view(p.1)))
}

/// The object an upload writes and the conditions it is written under.
pub struct WriteObjectSpec {
    pub bucket: String,
    pub name: String,
    pub kms_key: String,
    pub predefined_acl: String,
    pub if_generation_match: Option<i64>,
    pub if_generation_not_match: Option<i64>,
    pub if_metageneration_match: Option<i64>,
    pub if_metageneration_not_match: Option<i64>,
}

/// The parameter `key` with an integer value, when there is one.
pub open spec fn int_param(key: Seq<char>, v: Option<i64>) -> Seq<(Seq<char>, QueryValueView)> {
    match v {
        Some(x) => seq![(key, QueryValueView::Int(x as int))],
        None => seq![],
    }
}

/// The parameter `key` with a text value, when the text is not empty.
pub open spec fn text_param(key: Seq<char>, v: Seq<char>) -> Seq<(Seq<char>, QueryValueView)> {
    if v.len() == 0 {
        seq![]
    } else {
        seq![(key, QueryValueView::Text(v))]
    }
}

/// The query parameters that carry an upload's preconditions, in order:
/// the four generation conditions that are set, then the KMS key and the
/// predefined ACL when they are not empty.
pub open spec fn precondition_params(spec: WriteObjectSpec) -> Seq<(Seq<char>, QueryValueView)> {
    int_param("ifGenerationMatch"@, spec.if_generation_match) + int_param(
        "ifGenerationNotMatch"@,
        spec.if_generation_not_match,
    ) + int_param("ifMetagenerationMatch"@, spec.if_metageneration_match) + int_param(
        "ifMetagenerationNotMatch"@,
        spec.if_metageneration_not_match,
    ) + text_param("kmsKeyName"@, spec.kms_key@) + text_param(
        "predefinedAcl"@,
        spec.predefined_acl@,
    )
}

proof fn lemma_concat_contains<T>(a: Seq<T>, b: Seq<T>, x: T)
    requires
        a.contains(x) || b.contains(x),
    ensures
        (a + b).contains(x),
{
    if a.contains(x) {
        let i = choose|i: int| 0 <= i < a.len() && a[i] == x;
        assert((a + b)[i] == x);
    } else {
        let i = choose|i: int| 0 <= i < b.len() && b[i] == x;
        assert((a + b)[a.len() + i] == x);
    }
}

/// Every condition that an upload's spec sets is carried as its query
/// parameter, and nothing else is: each generation condition with its
/// number, and the KMS key and the predefined ACL when they are not empty;
/// there are as many parameters as conditions set.
pub proof fn lemma_preconditions_carried(spec: WriteObjectSpec)
    ensures
        spec.if_generation_match matches Some(g) ==> precondition_params(spec).contains(
            ("ifGenerationMatch"@, QueryValueView::Int(g as int)),
        ),
        spec.if_generation_not_match matches Some(g) ==> precondition_params(spec).contains(
            ("ifGenerationNotMatch"@, QueryValueView::Int(g as int)),
        ),
        spec.if_metageneration_match matches Some(g) ==> precondition_params(spec).contains(
            ("ifMetagenerationMatch"@, QueryValueView::Int(g as int)),
        ),
        spec.if_metageneration_not_match matches Some(g) ==> precondition_params(spec).contains(
            ("ifMetagenerationNotMatch"@, QueryValueView::Int(g as int)),
        ),
        spec.kms_key@.len() > 0 ==> precondition_params(spec).contains(
            ("kmsKeyName"@, QueryValueView::Text(spec.kms_key@)),
        ),
        spec.predefined_acl@.len() > 0 ==> precondition_params(spec).contains(
            ("predefinedAcl"@, QueryValueView::Text(spec.predefined_acl@)),
        ),
        precondition_params(spec).len() == (if spec.if_generation_match is Some { 1int } else { 0int }) + (if spec.if_generation_not_match is Some {
            1int
        } else {
            0int
        }) + (if spec.if_metageneration_match is Some { 1int } else { 0int }) + (
        if spec.if_metageneration_not_match is Some {
            1int
        } else {
            0int
        }) + (if spec.kms_key@.len() > 0 { 1int } else { 0int }) + (if spec.predefined_acl@.len() > 0 {
            1int
        } else {
            0int
        }),
{
    let a = int_param("ifGenerationMatch"@, spec.if_generation_match);
    let b = int_param("ifGenerationNotMatch"@, spec.if_generation_not_match);
    let c = int_param("ifMetagenerationMatch"@, spec.if_metageneration_match);
    let d = int_param("ifMetagenerationNotMatch"@, spec.if_metageneration_not_match);
    let e = text_param("kmsKeyName"@, spec.kms_key@);
    let f = text_param("predefinedAcl"@, spec.predefined_acl@);
    assert(precondition_params(spec) == a + b + c + d + e + f);
    if let Some(g) = spec.if_generation_match {
        let x = ("ifGenerationMatch"@, QueryValueView::Int(g as int));
        assert(a[0] == x);
        lemma_concat_contains(a, b, x);
        lemma_concat_contains(a + b, c, x);
        lemma_concat_contains(a + b + c, d, x);
        lemma_concat_contains(a + b + c + d, e, x);
        lemma_concat_contains(a + b + c + d + e, f, x);
    }
    if let Some(g) = spec.if_generation_not_match {
        let x = ("ifGenerationNotMatch"@, QueryValueView::Int(g as int));
        assert(b[0] == x);
        lemma_concat_contains(a, b, x);
        lemma_concat_contains(a + b, c, x);
        lemma_concat_contains(a + b + c, d, x);
        lemma_concat_contains(a + b + c + d, e, x);
        lemma_concat_contains(a + b + c + d + e, f, x);
    }
    if let Some(g) = spec.if_metageneration_match {
        let x = ("ifMetagenerationMatch"@, QueryValueView::Int(g as int));
        assert(c[0] == x);
        lemma_concat_contains(a + b, c, x);
        lemma_concat_contains(a + b + c, d, x);
        lemma_concat_contains(a + b + c + d, e, x);
        lemma_concat_contains(a + b + c + d + e, f, x);
    }
    if let Some(g) = spec.if_metageneration_not_match {
        let x = ("ifMetagenerationNotMatch"@, QueryValueView::Int(g as int));
        assert(d[0] == x);
        lemma_concat_contains(a + b + c, d, x);
        lemma_concat_contains(a + b + c + d, e, x);
        lemma_concat_contains(a + b + c + d + e, f, x);
    }
    if spec.kms_key@.len() > 0 {
        let x = ("kmsKeyName"@, QueryValueView::Text(spec.kms_key@));
        assert(e[0] == x);
        lemma_concat_contains(a + b + c + d, e, x);
        lemma_concat_contains(a + b + c + d + e, f, x);
    }
    if spec.predefined_acl@.len() > 0 {
        let x = ("predefinedAcl"@, QueryValueView::Text(spec.predefined_acl@));
        assert(f[0] == x);
        lemma_concat_contains(a + b + c + d + e, f, x);
    }
}

/// The request that starts a resumable upload asks for a resumable upload
/// of the spec's object, first, and carries every condition the spec sets:
/// the generation conditions, and the KMS key and predefined ACL when they
/// are not empty.
pub proof fn lemma_start_request_carries_spec(
    r: Result<UploadRequest, String>,
    base: Seq<char>,
    spec: WriteObjectSpec,
)
    requires
        upload_request_for(r, base, spec),
    ensures
        r matches Ok(req) ==> {
            let q = query_views(req.query@);
            &&& q.len() == 2 + precondition_params(spec).len()
            &&& q[0] == ("uploadType"@, QueryValueView::Text("resumable"@))
            &&& q[1] == ("name"@, QueryValueView::Text(spec.name@))
            &&& spec.if_generation_match matches Some(g) ==> q.contains(
                ("ifGenerationMatch"@, QueryValueView::Int(g as int)),
            )
            &&& spec.if_generation_not_match matches Some(g) ==> q.contains(
                ("ifGenerationNotMatch"@, QueryValueView::Int(g as int)),
            )
            &&& spec.if_metageneration_match matches Some(g) ==> q.contains(
                ("ifMetagenerationMatch"@, QueryValueView::Int(g as int)),
            )
            &&& spec.if_metageneration_not_match matches Some(g) ==> q.contains(
                ("ifMetagenerationNotMatch"@, QueryValueView::Int(g as int)),
            )
            &&& spec.kms_key@.len() > 0 ==> q.contains(("kmsKeyName"@, QueryValueView::Text(spec.kms_key@)))
            &&& spec.predefined_acl@.len() > 0 ==> q.contains(
                ("predefinedAcl"@, QueryValueView::Text(spec.predefined_acl@)),
            )
        },
{
    lemma_preconditions_carried(spec);
    if let Ok(req) = r {
        let head = seq![
            ("uploadType"@, QueryValueView::Text("resumable"@)),
            ("name"@, QueryValueView::Text(spec.name@)),
        ];
        let p = precondition_params(spec);
        assert(query_views(req.query@) == head + p);
        assert forall|x: (Seq<char>, QueryValueView)| p.contains(x) implies (head + p).contains(x) by {
            lemma_concat_contains(head, p, x);
        }
    }
}

/// The request that starts an upload into the bucket
/// `projects/_/buckets/<id>` goes to `<base>upload/storage/v1/b/<id>/o` with
/// a JSON body; a bucket name without that prefix is refused with a message
/// that names it.
pub proof fn lemma_start_request_target(
    r: Result<UploadRequest, String>,
    base: Seq<char>,
    spec: WriteObjectSpec,
    id: Seq<char>,
)
    requires
        upload_request_for(r, base, spec),
    ensures
        spec.bucket@ == "projects/_/buckets/"@ + id ==> (r matches Ok(req) && req.path@ == base
            + "upload/storage/v1/b/"@ + id + "/o"@ && header_views(req.headers@) == seq![
            ("content-type"@, "application/json"@),
        ]),
        !(spec.bucket@.len() >= 19 && spec.bucket@.subrange(0, 19) == "projects/_/buckets/"@) ==> (r matches Err(
            m,
        ) && m@ == "malformed bucket name, it must start with `projects/_/buckets/`: "@ + spec.bucket@),
{
    reveal_strlit("projects/_/buckets/");
    let p = "projects/_/buckets/"@;
    if spec.bucket@ == p + id {
        assert((p + id).subrange(0, p.len() as int) =~= p);
        assert((p + id).subrange(p.len() as int, (p + id).len() as int) =~= id);
    }
}

fn push_int_param(q: &mut Vec<(String, QueryValue)>, key: &str, v: Option<i64>)
    ensures
        query_views(final(q)@) == query_views(old(q)@) + int_param(key@, v),
{
    let ghost before = query_views(q@);
    match v {
        Some(x) => {
            q.push((to_owned(key), QueryValue::Int(x)));
            assert(query_views(q@) =~= before + int_param(key@, v));
        },
        None => {
            assert(query_views(q@) =~= before + int_param(key@, v));
        },
    }
}

fn push_text_param(q: &mut Vec<(String, QueryValue)>, key: &str, v: &str)
    ensures
        query_views(final(q)@) == query_views(old(q)@) + text_param(key@, v@),
{
    let ghost before = query_views(q@);
    if v.is_empty() {
        assert(query_views(q@) =~= before + text_param(key@, v@));
    } else {
        q.push((to_owned(key), QueryValue::Text(to_owned(v))));
        assert(query_views(q@) =~= before + text_param(key@, v@));
    }
}

/// Appends the query parameters that carry the upload's preconditions.
pub fn apply_preconditions(spec: &WriteObjectSpec, query: &mut Vec<(String, QueryValue)>)
    ensures
        query_views(final(query)@) == query_views(old(query)@) + precondition_params(*spec),
{
    let ghost start = query_views(query@);
    push_int_param(query, "ifGenerationMatch", spec.if_generation_match);
    push_int_param(query, "ifGenerationNotMatch", spec.if_generation_not_match);
    push_int_param(query, "ifMetagenerationMatch", spec.if_metageneration_match);
    push_int_param(query, "ifMetagenerationNotMatch", spec.if_metageneration_not_match);
    push_text_param(query, "kmsKeyName", spec.kms_key.as_str());
    push_text_param(query, "predefinedAcl", spec.predefined_acl.as_str());
    assert(query_views(query@) =~= start + precondition_params(*spec));
}

/// The request that starts a resumable upload: its path, query and
/// headers.
pub struct UploadRequest {
    pub path: String,
    pub query: Vec<(String, QueryValue)>,
    pub headers: Vec<(String, String)>,
}

/// The views of a list of header names and values.
pub open spec fn header_views(h: Seq<(String, String)>) -> Seq<(Seq<char>, Seq<char>)> {
    h.map_values(|p: (String, String)| (p.0@, p.1@))
}

/// The prefix that every bucket name must carry.
pub open spec fn bucket_prefix() -> Seq<char> {
    "projects/_/buckets/"@
}

/// The error text for a bucket name without the required prefix.
pub open spec fn malformed_bucket_message(bucket: Seq<char>) -> Seq<char> {
    "malformed bucket name, it must start with `projects/_/buckets/`: "@ + bucket
}

/// `r` is the request that starts a resumable upload of `spec` under the
/// path prefix `base`: the bucket must carry its prefix, the path names the
/// bucket id, and the query asks for a resumable upload of the object,
/// followed by its preconditions.
pub open spec fn upload_request_for(r: Result<UploadRequest, String>, base: Seq<char>, spec: WriteObjectSpec) -> bool {
    match strip_prefix_spec(spec.bucket@, bucket_prefix()) {
        None => r matches Err(m) && m@ == malformed_bucket_message(spec.bucket@),
        Some(id) => r matches Ok(req) && req.path@ == base + "upload/storage/v1/b/"@ + id + "/o"@
            && query_views(req.query@) == seq![
            ("uploadType"@, QueryValueView::Text("resumable"@)),
            ("name"@, QueryValueView::Text(spec.name@)),
        ] + precondition_params(spec) && header_views(req.headers@) == seq![
            ("content-type"@, "application/json"@),
        ],
    }
}

fn upload_request(base: &str, spec: &WriteObjectSpec) -> (r: Result<UploadRequest, String>)
    ensures
        upload_request_for(r, base@, *spec),
{
    match strip_prefix(spec.bucket.as_str(), "projects/_/buckets/") {
        None => Err(concat(
            "malformed bucket name, it must start with `projects/_/buckets/`: ",
            spec.bucket.as_str(),
        )),
        Some(id) => {
            let p1 = concat(base, "upload/storage/v1/b/");
            let p2 = concat(p1.as_str(), id.as_str());
            let path = concat(p2.as_str(), "/o");
            let mut query: Vec<(String, QueryValue)> = Vec::new();
            query.push((to_owned("uploadType"), QueryValue::Text(to_owned("resumable"))));
            query.push((to_owned("name"), QueryValue::Text(spec.name.clone())));
            let ghost head = query_views(query@);
            assert(head =~= seq![
                ("uploadType"@, QueryValueView::Text("resumable"@)),
                ("name"@, QueryValueView::Text(spec.name@)),
            ]);
            apply_preconditions(spec, &mut query);
            assert(path@ =~= base@ + "upload/storage/v1/b/"@ + id@ + "/o"@);
            let mut headers: Vec<(String, String)> = Vec::new();
            headers.push((to_owned("content-type"), to_owned("application/json")));
            assert(header_views(headers@) =~= seq![("content-type"@, "application/json"@)]);
            Ok(UploadRequest { path, query, headers })
        },
    }
}

/// The request that starts a resumable upload over the legacy transport,
/// addressed under `endpoint`.
pub fn start_resumable_upload_request(endpoint: &str, spec: &WriteObjectSpec) -> (r: Result<
    UploadRequest,
    String,
>)
    ensures
        upload_request_for(r, endpoint@ + "/"@, *spec),
{
    let base = concat(endpoint, "/");
    upload_request(base.as_str(), spec)
}

/// The request that starts a resumable upload over the client transport,
/// addressed relative to the client's endpoint.
pub fn start_resumable_upload_request_v2(spec: &WriteObjectSpec) -> (r: Result<UploadRequest, String>)
    ensures
        upload_request_for(r, ""@, *spec),
{
    upload_request("", spec)
}

/// The request that asks how much of an upload the service has persisted:
/// a `PUT` to the upload's session URL with an empty body and the range
/// `bytes */*`.
pub struct QueryRequest {
    pub method: String,
    pub url: String,
    pub headers: Vec<(String, String)>,
}

/// The headers of the query of a resumable upload.
pub open spec fn query_header_views() -> Seq<(Seq<char>, Seq<char>)> {
    seq![
        ("content-type"@, "application/octet-stream"@),
        ("Content-Range"@, "bytes */*"@),
        ("content-length"@, "0"@),
    ]
}

/// The request that queries the resumable upload at `upload_url`.
pub fn query_resumable_upload_request(upload_url: &str) -> (r: QueryRequest)
    ensures
        r.method@ == "PUT"@,
        r.url@ == upload_url@,
        header_views(r.headers@) == query_header_views(),
{
    let mut headers: Vec<(String, String)> = Vec::new();
    headers.push((to_owned("content-type"), to_owned("application/octet-stream")));
    headers.push((to_owned("Content-Range"), to_owned("bytes */*")));
    headers.push((to_owned("content-length"), to_owned("0")));
    assert(header_views(headers@) =~= query_header_views());
    QueryRequest { method: to_owned("PUT"), url: to_owned(upload_url), headers }
}

} // verus!
