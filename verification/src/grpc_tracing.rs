//! Structured tracing of gRPC requests: a layer that wraps a gRPC service,
//! and the `grpc.request` span each call runs in.

use vstd::prelude::*;
use vstd::string::*;
use crate::attributes::{
    OTEL_NAME, OTEL_KIND, OTEL_KIND_CLIENT, RPC_SYSTEM, RPC_SERVICE, RPC_METHOD, SERVER_ADDRESS,
    SERVER_PORT, URL_DOMAIN, RPC_GRPC_STATUS_CODE, GRPC_STATUS, OTEL_STATUS_CODE, ERROR_TYPE,
};
use crate::client_request::{entry_views, push_entry, push_str_entry};
use crate::span::{AttributeValue, AttrView, SpanRecord, span_of, str_attr, int_attr};
use crate::text::{
    str_eq, find_char, find_from, lemma_find_from, lemma_find_from_is, lemma_find_from_none, trim_start_char, trim_leading, to_owned, concat,
};

verus! {

/// The parts of a parsed URI that endpoint handling reads.
pub struct UriView {
    pub host: Option<Seq<char>>,
    pub port: Option<u16>,
    pub scheme: Option<Seq<char>>,
}

/// What `http::Uri`'s parser makes of `s`: `None` when `s` is not a URI,
/// and otherwise the host (`Uri::host`), the explicit port
/// (`Uri::port_u16`) and the scheme (`Uri::scheme_str`).
pub uninterp spec fn uri_components(s: Seq<char>) -> Option<UriView>;

/// The parts of a parsed URI, as plain values.
pub struct UriParts {
    pub host: Option<String>,
    pub port: Option<u16>,
    pub scheme: Option<String>,
}

/// The view of the parts of a parsed URI.
pub open spec fn uri_parts_view(p: UriParts) -> UriView {
    UriView {
        host: match p.host {
            Some(h) => Some(h@),
            None => None,
        },
        port: p.port,
        scheme: match p.scheme {
            Some(x) => Some(x@),
            None => None,
        },
    }
}

/// Parses `s` with `<http::Uri as FromStr>::from_str` and reads its host,
/// explicit port and scheme. The contract claims only that the outcome is
/// the one that `uri_components` names for `s`.
#[verifier::external_body]
fn parse_uri(s: &str) -> (r: Option<UriParts>)
    ensures
        match r {
            Some(p) => uri_components(s@) == Some(uri_parts_view(p)),
            None => uri_components(s@) is None,
        },
{
    match s.parse::<http::Uri>() {
        Ok(uri) => Some(UriParts {
            host: uri.host().map(String::from),
            port: uri.port_u16(),
            scheme: uri.scheme_str().map(String::from),
        }),
        Err(_) => None,
    }
}

/// The service and method named by a gRPC request path
/// `/package.Service/Method`: leading slashes are dropped, and the rest
/// must hold exactly one `/`; otherwise both are `unknown`.
pub open spec fn method_parts(path: Seq<char>) -> (Seq<char>, Seq<char>) {
    let t = trim_leading(path, '/');
    let i = find_from(t, '/', 0);
    if i >= 0 && find_from(t, '/', i + 1) == -1 {
        (t.subrange(0, i), t.subrange(i + 1, t.len() as int))
    } else {
        ("unknown"@, "unknown"@)
    }
}

/// Splits a gRPC request path into its service and method.
pub fn parse_method(path: &str) -> (r: (String, String))
    ensures
        (r.0@, r.1@) == method_parts(path@),
{
    let t = trim_start_char(path, '/');
    let ts = t.as_str();
    let n = ts.unicode_len();
    proof {
        lemma_find_from(t@, '/', 0);
    }
    match find_char(ts, '/', 0) {
        Some(i) => {
            match find_char(ts, '/', i + 1) {
                None => {
                    (to_owned(ts.substring_char(0, i)), to_owned(ts.substring_char(i + 1, n)))
                },
                Some(_) => (to_owned("unknown"), to_owned("unknown")),
            }
        },
        None => (to_owned("unknown"), to_owned("unknown")),
    }
}

/// The port a URI scheme implies when the URI names none.
pub open spec fn scheme_port(scheme: Option<Seq<char>>) -> Option<u16> {
    if scheme == Some("https"@) {
        Some(443u16)
    } else if scheme == Some("http"@) {
        Some(80u16)
    } else {
        None
    }
}

/// The server address, port and URL domain of a gRPC endpoint, given what
/// the URI parser made of it: the URI's host (or the whole endpoint when
/// the URI has none), its port or the one its scheme implies, and the host
/// again; when the endpoint is not a URI, the endpoint itself, no port, and
/// the endpoint.
pub open spec fn endpoint_parts_of(endpoint: Seq<char>, uri: Option<UriView>) -> (
    Seq<char>,
    Option<u16>,
    Seq<char>,
) {
    match uri {
        Some(u) => {
            let host = match u.host {
                Some(h) => h,
                None => endpoint,
            };
            let port = match u.port {
                Some(p) => Some(p),
                None => scheme_port(u.scheme),
            };
            (host, port, host)
        },
        None => (endpoint, None, endpoint),
    }
}

/// The server address, port and URL domain of a gRPC endpoint.
pub open spec fn endpoint_parts(endpoint: Seq<char>) -> (Seq<char>, Option<u16>, Seq<char>) {
    endpoint_parts_of(endpoint, uri_components(endpoint))
}

/// The server address, port and URL domain of `endpoint`, from the parts
/// its URI parse gave (`None` when it is not a URI).
pub fn endpoint_parts_from(endpoint: &str, uri: Option<UriParts>) -> (r: (String, Option<u16>, String))
    ensures
        (r.0@, r.1, r.2@) == endpoint_parts_of(
            endpoint@,
            match uri {
                Some(p) => Some(uri_parts_view(p)),
                None => None,
            },
        ),
{
    match uri {
        Some(parts) => {
            let host = match &parts.host {
                Some(h) => h.clone(),
                None => to_owned(endpoint),
            };
            let port = match parts.port {
                Some(p) => Some(p),
                None => match &parts.scheme {
                    Some(s) => {
                        if str_eq(s.as_str(), "https") {
                            Some(443u16)
                        } else if str_eq(s.as_str(), "http") {
                            Some(80u16)
                        } else {
                            None
                        }
                    },
                    None => None,
                },
            };
            let domain = host.clone();
            (host, port, domain)
        },
        None => (to_owned(endpoint), None, to_owned(endpoint)),
    }
}

/// Reads the server address, port and URL domain from a gRPC endpoint.
pub fn parse_endpoint(endpoint: &str) -> (r: (String, Option<u16>, String))
    ensures
        (r.0@, r.1, r.2@) == endpoint_parts(endpoint@),
{
    endpoint_parts_from(endpoint, parse_uri(endpoint))
}

/// The fields of the span of a gRPC call to `path` over `endpoint`, in
/// declaration order, with the values it starts with.
pub open spec fn grpc_span_entries(path: Seq<char>, endpoint: Seq<char>) -> Seq<
    (Seq<char>, Option<AttrView>),
> {
    let (service, method) = method_parts(path);
    let (address, port, domain) = endpoint_parts(endpoint);
    seq![
        (OTEL_NAME@, Some(str_attr(service + "/"@ + method))),
        (RPC_SYSTEM@, Some(str_attr("grpc"@))),
        (OTEL_KIND@, Some(str_attr(OTEL_KIND_CLIENT@))),
        (RPC_SERVICE@, Some(str_attr(service))),
        (RPC_METHOD@, Some(str_attr(method))),
        (SERVER_ADDRESS@, Some(str_attr(address))),
        (SERVER_PORT@, match port {
            Some(p) => Some(int_attr(p as int)),
            None => None,
        }),
        (URL_DOMAIN@, Some(str_attr(domain))),
        (RPC_GRPC_STATUS_CODE@, None),
        (GRPC_STATUS@, None),
        (OTEL_STATUS_CODE@, None),
        (ERROR_TYPE@, None),
    ]
}

/// Creates the `grpc.request` span of a call to the request path `path`
/// over `endpoint`.
pub fn create_grpc_span(path: &str, endpoint: &str) -> (r: SpanRecord)
    ensures
        r@ == span_of("grpc.request"@, grpc_span_entries(path@, endpoint@)),
{
    let (service, method) = parse_method(path);
    let (address, port, domain) = parse_endpoint(endpoint);
    let with_slash = concat(service.as_str(), "/");
    let span_name = concat(with_slash.as_str(), method.as_str());
    let mut e: Vec<(&'static str, Option<AttributeValue>)> = Vec::new();
    push_str_entry(&mut e, OTEL_NAME, span_name.as_str());
    push_str_entry(&mut e, RPC_SYSTEM, "grpc");
    push_str_entry(&mut e, OTEL_KIND, OTEL_KIND_CLIENT);
    push_str_entry(&mut e, RPC_SERVICE, service.as_str());
    push_str_entry(&mut e, RPC_METHOD, method.as_str());
    push_str_entry(&mut e, SERVER_ADDRESS, address.as_str());
    push_entry(
        &mut e,
        SERVER_PORT,
        match port {
            Some(p) => Some(AttributeValue::Int(p as i64)),
            None => None,
        },
    );
    push_str_entry(&mut e, URL_DOMAIN, domain.as_str());
    push_entry(&mut e, RPC_GRPC_STATUS_CODE, None);
    push_entry(&mut e, GRPC_STATUS, None);
    push_entry(&mut e, OTEL_STATUS_CODE, None);
    push_entry(&mut e, ERROR_TYPE, None);
    assert(entry_views(e@) =~= grpc_span_entries(path@, endpoint@));
    SpanRecord::new(to_owned("grpc.request"), e)
}

/// A layer that wraps a gRPC service so that each request runs in a
/// `grpc.request` span describing the call and the endpoint.
#[derive(Clone, Debug)]
pub struct TracingTowerLayer {
    endpoint: String,
}

impl View for TracingTowerLayer {
    type V = Seq<char>;

    closed spec fn view(&self) -> Seq<char> {
        self.endpoint@
    }
}

impl TracingTowerLayer {
    /// Creates a layer for services that talk to `endpoint`.
    pub fn new(endpoint: String) -> (r: Self)
        ensures
            r@ == endpoint@,
    {
        Self { endpoint }
    }

    /// The endpoint the wrapped services talk to.
    pub fn endpoint(&self) -> (r: &str)
        ensures
            r@ == self@,
    {
        self.endpoint.as_str()
    }

    /// Wraps `inner` in a tracing service that uses this layer's endpoint.
    pub fn layer<S>(&self, inner: S) -> (r: TracingTowerService<S>)
        ensures
            r.inner_value() == inner,
            r.layer_value()@ == self@,
    {
        TracingTowerService { inner, layer: TracingTowerLayer { endpoint: self.endpoint.clone() } }
    }
}

impl Default for TracingTowerLayer {
    fn default() -> (r: Self)
        ensures
            r@ == Seq::<char>::empty(),
    {
        TracingTowerLayer { endpoint: String::new() }
    }
}

/// A service that runs each request of the service it wraps in a
/// `grpc.request` span.
#[derive(Clone, Debug)]
pub struct TracingTowerService<S> {
    inner: S,
    layer: TracingTowerLayer,
}

impl<S> TracingTowerService<S> {
    /// The wrapped service.
    pub closed spec fn inner_value(&self) -> S {
        self.inner
    }

    /// The layer that made this service.
    pub closed spec fn layer_value(&self) -> TracingTowerLayer {
        self.layer
    }

    /// The wrapped service, for the call that this service forwards.
    pub fn inner_mut(&mut self) -> (r: &mut S)
        ensures
            *r == old(self).inner_value(),
            final(self).inner_value() == *final(r),
            final(self).layer_value() == old(self).layer_value(),
    {
        &mut self.inner
    }

    /// The span that a request to `path` runs in.
    pub fn request_span(&self, path: &str) -> (r: SpanRecord)
        ensures
            r@ == span_of("grpc.request"@, grpc_span_entries(path@, self.layer_value()@)),
    {
        create_grpc_span(path, self.layer.endpoint())
    }
}

/// The request path `/service/method`, with or without its leading `/`,
/// names `service` and `method`, for every non-empty service and every
/// method that hold no `/`.
pub proof fn lemma_method_path_roundtrip(service: Seq<char>, method: Seq<char>)
    requires
        service.len() > 0,
        !service.contains('/'),
        !method.contains('/'),
    ensures
        method_parts(seq!['/'] + service + seq!['/'] + method) == (service, method),
        method_parts(service + seq!['/'] + method) == (service, method),
{
    let p = seq!['/'] + service + seq!['/'] + method;
    let t = service + seq!['/'] + method;
    assert(p.drop_first() =~= t);
    assert(t[0] == service[0]);
    assert(service[0] != '/') by {
        if service[0] == '/' {
            assert(service.contains('/'));
        }
    }
    assert(trim_leading(t, '/') == t);
    assert(trim_leading(p, '/') == t);
    let n = service.len() as int;
    assert forall|k: int| 0 <= k < n implies t[k] != '/' by {
        assert(t[k] == service[k]);
        if service[k] == '/' {
            assert(service.contains('/'));
        }
    }
    lemma_find_from_is(t, '/', 0, n);
    assert forall|k: int| n + 1 <= k < t.len() implies t[k] != '/' by {
        assert(t[k] == method[k - n - 1]);
        if method[k - n - 1] == '/' {
            assert(method.contains('/'));
        }
    }
    lemma_find_from_none(t, '/', n + 1);
    assert(t.subrange(0, n) =~= service);
    assert(t.subrange(n + 1, t.len() as int) =~= method);
}

} // verus!
