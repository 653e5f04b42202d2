//! Turning a raw directory address into the endpoint that gets polled.
//!
//! Directory entries carry their own scheme token; its first four characters
//! are overwritten with `http` before the address is parsed.  A parsed
//! address with the plain-HTTP scheme and no explicit port gets the default
//! query port 1212, and its path loses any trailing slashes and gains the
//! literal suffix `/status`.

use vstd::prelude::*;
use vstd::string::*;

use crate::render::dec_str;
use crate::render::u64_to_decimal;

verus! {

/// The components of a parsed absolute URL that the normalizer reads.
pub struct UrlView {
    pub scheme: Seq<char>,
    pub host: Seq<char>,
    pub port: Option<u16>,
    pub path: Seq<char>,
}

/// The outcome of URL parsing on a given text: `None` when the text is not
/// an absolute URL with a host, and otherwise the scheme, host, explicit
/// port and path that the parser recognises.  This is determined by the
/// text alone.
pub uninterp spec fn url_view_of(s: Seq<char>) -> Option<UrlView>;

/// The components of a parsed URL, as executable values.
pub struct UrlParts {
    pub scheme: String,
    pub host: String,
    pub port: Option<u16>,
    pub path: String,
}

impl View for UrlParts {
    type V = UrlView;

    open spec fn view(&self) -> UrlView {
        UrlView {
            scheme: self.scheme@,
            host: self.host@,
            port: self.port,
            path: self.path@,
        }
    }
}

/// Relies on `url::Url::parse` (absolute-URL parsing per the WHATWG URL
/// standard) and the accessors `Url::scheme`, `Url::host_str` (`None` for
/// host-less URLs), `Url::port` (the explicit port, `None` when absent or
/// equal to the scheme's known default) and `Url::path`.  Parsing is a pure
/// function of the input text, named `url_view_of`.
#[verifier::external_body]
fn parse_url(s: &str) -> (r: Option<UrlParts>)
    ensures
        match r {
            Some(parts) => url_view_of(s@) == Some(parts@),
            None => url_view_of(s@) is None,
        },
{
    let parsed = match url::Url::parse(s) {
        Ok(u) => u,
        Err(_) => return None,
    };
    match parsed.host_str() {
        Some(h) => Some(UrlParts {
            scheme: parsed.scheme().to_owned(),
            host: h.to_owned(),
            port: parsed.port(),
            path: parsed.path().to_owned(),
        }),
        None => None,
    }
}

/// The scheme token that replaces the first four characters of an address.
pub open spec fn http_scheme() -> Seq<char> {
    seq!['h', 't', 't', 'p']
}

/// The address with its first four characters overwritten by `http`.
pub open spec fn rewrite_scheme(raw: Seq<char>) -> Seq<char> {
    http_scheme() + raw.skip(4)
}

/// `p` without its trailing slashes.
pub open spec fn strip_trailing_slashes(p: Seq<char>) -> Seq<char>
    decreases p.len(),
{
    if p.len() > 0 && p.last() == '/' {
        strip_trailing_slashes(p.drop_last())
    } else {
        p
    }
}

/// The literal path suffix appended to every normalized endpoint.
pub open spec fn status_suffix() -> Seq<char> {
    seq!['/', 's', 't', 'a', 't', 'u', 's']
}

/// The polled path derived from a parsed path: trailing slashes stripped,
/// then `/status` appended.
pub open spec fn status_path(p: Seq<char>) -> Seq<char> {
    strip_trailing_slashes(p) + status_suffix()
}

/// The whole normalization, as a function of the raw address text.
pub open spec fn normalize_spec(raw: Seq<char>) -> Option<UrlView> {
    if raw.len() < 4 {
        None
    } else {
        match url_view_of(rewrite_scheme(raw)) {
            Some(parts) => Some(
                UrlView {
                    scheme: parts.scheme,
                    host: parts.host,
                    port: match parts.port {
                        Some(p) => Some(p),
                        None => if parts.scheme == http_scheme() {
                            Some(1212u16)
                        } else {
                            None
                        },
                    },
                    path: status_path(parts.path),
                },
            ),
            None => None,
        }
    }
}

/// A normalized endpoint, ready to be polled.
pub struct Endpoint {
    pub scheme: String,
    pub host: String,
    pub port: Option<u16>,
    pub path: String,
}

impl View for Endpoint {
    type V = UrlView;

    open spec fn view(&self) -> UrlView {
        UrlView {
            scheme: self.scheme@,
            host: self.host@,
            port: self.port,
            path: self.path@,
        }
    }
}

/// The serialized form of an endpoint:
/// `scheme://host[:port]path`, with the port in decimal.
pub open spec fn url_seq(v: UrlView) -> Seq<char> {
    v.scheme + seq![':', '/', '/'] + v.host + (match v.port {
        Some(p) => seq![':'] + dec_str(p as nat),
        None => Seq::<char>::empty(),
    }) + v.path
}

impl Endpoint {
    /// Serialize the endpoint for the HTTP client.
    pub fn url_string(&self) -> (s: String)
        ensures
            s@ == url_seq(self@),
    {
        let mut s = self.scheme.clone();
        s.append("://");
        s.append(self.host.as_str());
        match &self.port {
            Some(p) => {
                s.append(":");
                let digits = u64_to_decimal(*p as u64);
                s.append(digits.as_str());
            },
            None => {},
        }
        s.append(self.path.as_str());
        proof {
            reveal_strlit("://");
            reveal_strlit(":");
            assert(s@ =~= url_seq(self@));
        }
        s
    }
}

/// `p` up to its trailing slashes.
fn strip_trailing(p: &str) -> (r: String)
    ensures
        r@ == strip_trailing_slashes(p@),
{
    let mut end = p.unicode_len();
    while end > 0 && p.get_char(end - 1) == '/'
        invariant
            end <= p@.len(),
            forall|i: int| end <= i < p@.len() ==> p@[i] == '/',
        decreases end,
    {
        end = end - 1;
    }
    let r = p.substring_char(0, end);
    proof {
        lemma_strip_prefix(p@, end as int);
    }
    r.to_owned()
}

proof fn lemma_strip_prefix(p: Seq<char>, end: int)
    requires
        0 <= end <= p.len(),
        forall|i: int| end <= i < p.len() ==> p[i] == '/',
        end > 0 ==> p[end - 1] != '/',
    ensures
        strip_trailing_slashes(p) == p.subrange(0, end),
    decreases p.len(),
{
    if p.len() == end {
        assert(p.subrange(0, end) =~= p);
    } else {
        assert(p.last() == '/');
        assert(forall|i: int| end <= i < p.drop_last().len() ==> p.drop_last()[i] == '/');
        lemma_strip_prefix(p.drop_last(), end);
        assert(p.drop_last().subrange(0, end) =~= p.subrange(0, end));
    }
}

proof fn lemma_strip_no_trailing(p: Seq<char>)
    ensures
        strip_trailing_slashes(p).len() > 0 ==> strip_trailing_slashes(p).last() != '/',
    decreases p.len(),
{
    if p.len() > 0 && p.last() == '/' {
        lemma_strip_no_trailing(p.drop_last());
    }
}

/// A path of the polled shape: it ends in `/status`, and whatever precedes
/// that suffix does not end in a slash.
pub open spec fn ends_in_status(p: Seq<char>) -> bool {
    &&& p.len() >= 7
    &&& p.skip(p.len() - 7) == status_suffix()
    &&& p.len() > 7 ==> p[p.len() - 8] != '/'
}

/// Every polled path ends in `/status` with no trailing slash kept before
/// the suffix, whatever path the parser produced.
pub proof fn lemma_status_path_shape(p: Seq<char>)
    ensures
        ends_in_status(status_path(p)),
{
    lemma_strip_no_trailing(p);
    let s = strip_trailing_slashes(p);
    assert(status_path(p).skip(s.len() as int) =~= status_suffix());
}

/// When an address of at least four characters rewrites to a text that
/// parses with the plain-HTTP scheme and no explicit port, normalization
/// succeeds, assigns the default query port 1212, and yields a path that
/// ends in `/status` with no trailing slash before the suffix.
pub proof fn lemma_http_default_port(raw: Seq<char>)
    requires
        raw.len() >= 4,
        url_view_of(rewrite_scheme(raw)) is Some,
        url_view_of(rewrite_scheme(raw)).unwrap().scheme == http_scheme(),
        url_view_of(rewrite_scheme(raw)).unwrap().port is None,
    ensures
        normalize_spec(raw) is Some,
        normalize_spec(raw).unwrap().port == Some(1212u16),
        ends_in_status(normalize_spec(raw).unwrap().path),
{
    let parts = url_view_of(rewrite_scheme(raw)).unwrap();
    lemma_status_path_shape(parts.path);
}

/// The invariant of every normalized endpoint: a plain-HTTP endpoint always
/// carries an explicit port, and the path ends in `/status` with no
/// trailing slash kept before the suffix.
pub open spec fn endpoint_wf(v: UrlView) -> bool {
    &&& v.scheme == http_scheme() ==> v.port is Some
    &&& ends_in_status(v.path)
}

/// Normalize one raw directory address.  The result is `None` exactly when
/// the address is shorter than the scheme token it should begin with, or
/// when the rewritten address does not parse as an absolute URL with a host.
pub fn normalize_address(raw: &str) -> (r: Option<Endpoint>)
    ensures
        match r {
            Some(e) => normalize_spec(raw@) == Some(e@) && endpoint_wf(e@),
            None => normalize_spec(raw@) is None,
        },
{
    let n = raw.unicode_len();
    if n < 4 {
        return None;
    }
    let mut rewritten = String::from_str("http");
    let rest = raw.substring_char(4, n);
    rewritten.append(rest);
    proof {
        reveal_strlit("http");
        assert(rewritten@ =~= rewrite_scheme(raw@));
    }
    match parse_url(rewritten.as_str()) {
        Some(parts) => {
            let http = String::from_str("http");
            proof {
                reveal_strlit("http");
                assert(http@ =~= http_scheme());
            }
            let port = match parts.port {
                Some(p) => Some(p),
                None => if parts.scheme == http {
                    Some(1212u16)
                } else {
                    None
                },
            };
            let mut path = strip_trailing(parts.path.as_str());
            path.append("/status");
            proof {
                reveal_strlit("/status");
                assert(path@ =~= status_path(parts.path@));
                lemma_status_path_shape(parts.path@);
            }
            Some(Endpoint { scheme: parts.scheme, host: parts.host, port, path })
        },
        None => None,
    }
}

} // verus!
