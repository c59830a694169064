//! Parsed URLs, as the HTTP spans read them.

use vstd::prelude::*;

verus! {

/// The parts of a parsed URL that the spans read.
pub struct UrlView {
    pub serialization: Seq<char>,
    pub scheme: Seq<char>,
    pub host: Option<Seq<char>>,
    pub port: Option<u16>,
}

/// What `url::Url::parse` (re-exported by `reqwest`) makes of `s`: `None`
/// when `s` is not a URL, and otherwise its serialization
/// (`Url::as_str`), scheme (`Url::scheme`), host (`Url::host_str`) and
/// explicit port (`Url::port`).
pub uninterp spec fn url_components(s: Seq<char>) -> Option<UrlView>;

/// The port that the `url` crate knows for a scheme
/// (`url::parser::default_port`).
pub open spec fn default_port(scheme: Seq<char>) -> Option<u16> {
    if scheme == "http"@ || scheme == "ws"@ {
        Some(80u16)
    } else if scheme == "https"@ || scheme == "wss"@ {
        Some(443u16)
    } else if scheme == "ftp"@ {
        Some(21u16)
    } else {
        None
    }
}

/// The port of a URL, or the port its scheme implies, as
/// `Url::port_or_known_default` returns it.
pub open spec fn port_or_known_default(u: UrlView) -> Option<u16> {
    match u.port {
        Some(p) => Some(p),
        None => default_port(u.scheme),
    }
}

/// A parsed URL, held as the plain values the spans read.
pub struct ParsedUrl {
    serialization: String,
    scheme: String,
    host: Option<String>,
    port: Option<u16>,
    port_or_default: Option<u16>,
}

impl View for ParsedUrl {
    type V = UrlView;

    closed spec fn view(&self) -> UrlView {
        UrlView {
            serialization: self.serialization@,
            scheme: self.scheme@,
            host: match self.host {
                Some(h) => Some(h@),
                None => None,
            },
            port: self.port,
        }
    }
}

/// Parses `s` with `reqwest::Url::parse` and reads `as_str`, `scheme`,
/// `host_str`, `port` and `port_or_known_default`. The contract claims that
/// the outcome is the one `url_components` names for `s`, and that the port
/// with its default is the explicit port or else the scheme's known port,
/// as the `url` source computes it.
#[verifier::external_body]
fn parse_url(s: &str) -> (r: Option<ParsedUrl>)
    ensures
        match r {
            Some(u) => url_components(s@) == Some(u@) && u.port_or_default
                == port_or_known_default(u@),
            None => url_components(s@) is None,
        },
{
    match reqwest::Url::parse(s) {
        Ok(url) => Some(ParsedUrl {
            serialization: url.as_str().to_string(),
            scheme: url.scheme().to_string(),
            host: url.host_str().map(String::from),
            port: url.port(),
            port_or_default: url.port_or_known_default(),
        }),
        Err(_) => None,
    }
}

impl ParsedUrl {
    #[verifier::type_invariant]
    closed spec fn default_port_known(&self) -> bool {
        self.port_or_default == port_or_known_default(self@)
    }

    /// Parses `s` as a URL.
    pub fn parse(s: &str) -> (r: Option<ParsedUrl>)
        ensures
            match r {
                Some(u) => url_components(s@) == Some(u@),
                None => url_components(s@) is None,
            },
    {
        parse_url(s)
    }

    /// The URL as text.
    pub fn as_str(&self) -> (r: &str)
        ensures
            r@ == self@.serialization,
    {
        self.serialization.as_str()
    }

    /// The URL's scheme.
    pub fn scheme(&self) -> (r: &str)
        ensures
            r@ == self@.scheme,
    {
        self.scheme.as_str()
    }

    /// The URL's host, if it has one.
    pub fn host_str(&self) -> (r: Option<&str>)
        ensures
            match r {
                Some(h) => self@.host == Some(h@),
                None => self@.host is None,
            },
    {
        match &self.host {
            Some(h) => Some(h.as_str()),
            None => None,
        }
    }

    /// The URL's explicit port, if any.
    pub fn port(&self) -> (r: Option<u16>)
        ensures
            r == self@.port,
    {
        self.port
    }

    /// The URL's port, or the port its scheme implies.
    pub fn port_or_known_default(&self) -> (r: Option<u16>)
        ensures
            r == port_or_known_default(self@),
    {
        proof {
            use_type_invariant(self);
        }
        self.port_or_default
    }
}

} // verus!
