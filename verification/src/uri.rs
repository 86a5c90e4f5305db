use vstd::prelude::*;

use crate::error::FetchError;

verus! {

/// `hyper::Uri` (the `http` crate's URI), opaque here.
#[verifier::external_type_specification]
#[verifier::external_body]
pub struct ExUri(hyper::Uri);

/// The parts of a parsed URI that the fetch rules read.
#[derive(Debug)]
pub struct ParsedUri {
    /// The URI as the `http` crate writes it back out.
    pub text: String,
    /// The scheme, as written in the URI (`http` and `https` in lower case).
    pub scheme: Option<String>,
    /// The host of the authority, as written.
    pub host: Option<String>,
    /// The port of the authority, if it has one.
    pub port: Option<u16>,
    /// The parsed URI itself, which requests are sent to.
    pub target: hyper::Uri,
}

/// The model of a [`ParsedUri`].
pub struct UriView {
    pub text: Seq<char>,
    pub scheme: Option<Seq<char>>,
    pub host: Option<Seq<char>>,
    pub port: Option<u16>,
    /// The parsed URI itself, which requests are sent to.
    pub target: hyper::Uri,
}

/// The characters of an optional string.
pub open spec fn opt_chars(s: Option<String>) -> Option<Seq<char>> {
    match s {
        Some(t) => Some(t@),
        None => None,
    }
}

impl View for ParsedUri {
    type V = UriView;

    open spec fn view(&self) -> UriView {
        UriView {
            text: self.text@,
            scheme: opt_chars(self.scheme),
            host: opt_chars(self.host),
            port: self.port,
            target: self.target,
        }
    }
}

/// Whether `Uri::from_str` accepts the text.
pub uninterp spec fn uri_parses(text: Seq<char>) -> bool;

/// How `Uri`'s `Display` writes back the URI parsed from the text.
pub uninterp spec fn uri_serialization(text: Seq<char>) -> Seq<char>;

/// What `Uri::scheme_str` gives for the URI parsed from the text.
pub uninterp spec fn uri_scheme(text: Seq<char>) -> Option<Seq<char>>;

/// What `Uri::host` gives for the URI parsed from the text.
pub uninterp spec fn uri_host(text: Seq<char>) -> Option<Seq<char>>;

/// What `Uri::port_u16` gives for the URI parsed from the text.
pub uninterp spec fn uri_port(text: Seq<char>) -> Option<u16>;

/// The `Uri` that `Uri::from_str` gives for the text.
pub uninterp spec fn uri_value(text: Seq<char>) -> hyper::Uri;

/// How `InvalidUri`'s `Display` describes why the text is refused.
pub uninterp spec fn uri_error_message(text: Seq<char>) -> Seq<char>;

/// The URI that the text parses to, as the `http` crate reads it.
pub open spec fn spec_parse_uri(text: Seq<char>) -> Option<UriView> {
    if uri_parses(text) {
        Some(
            UriView {
                text: uri_serialization(text),
                scheme: uri_scheme(text),
                host: uri_host(text),
                port: uri_port(text),
                target: uri_value(text),
            },
        )
    } else {
        None
    }
}

/// Parses the text with `hyper::Uri`'s `FromStr` (the `http` crate's URI
/// parser) and reads back the parts with `Display`, `scheme_str`, `host` and
/// `port_u16`, keeping the parsed URI; a refusal is described by
/// `InvalidUri`'s `Display`. The
/// contract claims only that each part is what those functions give for the
/// text: it names them and states nothing of how they parse.
#[verifier::external_body]
pub(crate) fn parse_uri_text(text: &str) -> (r: Result<ParsedUri, String>)
    ensures
        r is Ok <==> uri_parses(text@),
        r matches Ok(u) ==> u@ == (UriView {
            text: uri_serialization(text@),
            scheme: uri_scheme(text@),
            host: uri_host(text@),
            port: uri_port(text@),
            target: uri_value(text@),
        }),
        r matches Err(m) ==> m@ == uri_error_message(text@),
{
    match text.parse::<hyper::Uri>() {
        Ok(uri) => Ok(ParsedUri {
            text: uri.to_string(),
            scheme: uri.scheme_str().map(String::from),
            host: uri.host().map(String::from),
            port: uri.port_u16(),
            target: uri,
        }),
        Err(e) => Err(e.to_string()),
    }
}

/// Calls `Uri::clone`; the clone is the same URI.
#[verifier::external_body]
pub(crate) fn clone_uri(u: &hyper::Uri) -> (r: hyper::Uri)
    ensures
        r == *u,
{
    u.clone()
}

/// Parses a URL (the requested one or the target of a redirect).
pub fn parse_uri(text: &str) -> (r: Result<ParsedUri, FetchError>)
    ensures
        match spec_parse_uri(text@) {
            Some(u) => r matches Ok(p) && p@ == u,
            None => r matches Err(FetchError::InvalidUri(m)) && m@ == uri_error_message(text@),
        },
{
    match parse_uri_text(text) {
        Ok(u) => Ok(u),
        Err(m) => Err(FetchError::InvalidUri(m)),
    }
}

impl ParsedUri {
    /// A copy of the parsed URI.
    pub fn duplicate(&self) -> (r: ParsedUri)
        ensures
            r@ == self@,
    {
        let scheme = match &self.scheme {
            Some(s) => Some(s.clone()),
            None => None,
        };
        let host = match &self.host {
            Some(h) => Some(h.clone()),
            None => None,
        };
        ParsedUri {
            text: self.text.clone(),
            scheme,
            host,
            port: self.port,
            target: clone_uri(&self.target),
        }
    }
}

/// A character with ASCII upper-case letters taken to lower case, as a code point.
pub open spec fn ascii_folded(c: char) -> u32 {
    if 'A' <= c && c <= 'Z' {
        (c as u32 + 32) as u32
    } else {
        c as u32
    }
}

/// Equality of two texts up to the case of ASCII letters.
pub open spec fn eq_ignore_ascii_case(a: Seq<char>, b: Seq<char>) -> bool {
    &&& a.len() == b.len()
    &&& forall|i: int| 0 <= i < a.len() ==> ascii_folded(#[trigger] a[i]) == ascii_folded(b[i])
}

/// Whether two schemes are the same: `http::uri::Scheme` compares schemes
/// without regard to the case of ASCII letters; no scheme matches only no scheme.
pub open spec fn schemes_match(a: Option<Seq<char>>, b: Option<Seq<char>>) -> bool {
    match (a, b) {
        (Some(x), Some(y)) => eq_ignore_ascii_case(x, y),
        (None, None) => true,
        _ => false,
    }
}

/// Whether two URIs have the same origin: scheme, host and port.
pub open spec fn spec_same_origin(a: UriView, b: UriView) -> bool {
    &&& schemes_match(a.scheme, b.scheme)
    &&& a.host == b.host
    &&& a.port == b.port
}

fn fold_ascii(c: char) -> (r: u32)
    ensures
        r == ascii_folded(c),
{
    if c >= 'A' && c <= 'Z' {
        (c as u32) + 32
    } else {
        c as u32
    }
}

/// Compares two texts without regard to the case of ASCII letters.
pub fn str_eq_ignore_ascii_case(a: &str, b: &str) -> (r: bool)
    ensures
        r == eq_ignore_ascii_case(a@, b@),
{
    let n = a.unicode_len();
    let m = b.unicode_len();
    if n != m {
        return false;
    }
    let mut i: usize = 0;
    while i < n
        invariant
            n == a@.len(),
            m == b@.len(),
            n == m,
            i <= n,
            forall|j: int| 0 <= j < i ==> ascii_folded(#[trigger] a@[j]) == ascii_folded(b@[j]),
        decreases n - i,
    {
        if fold_ascii(a.get_char(i)) != fold_ascii(b.get_char(i)) {
            return false;
        }
        i = i + 1;
    }
    true
}

/// Whether the two URIs have the same scheme.
pub fn is_same_scheme(uri: &ParsedUri, initial_uri: &ParsedUri) -> (r: bool)
    ensures
        r == schemes_match(uri@.scheme, initial_uri@.scheme),
{
    match (&uri.scheme, &initial_uri.scheme) {
        (Some(a), Some(b)) => str_eq_ignore_ascii_case(a.as_str(), b.as_str()),
        (None, None) => true,
        _ => false,
    }
}

/// Whether the two URIs have the same host.
pub fn is_same_host(uri: &ParsedUri, initial_uri: &ParsedUri) -> (r: bool)
    ensures
        r == (uri@.host == initial_uri@.host),
{
    match (&uri.host, &initial_uri.host) {
        (Some(a), Some(b)) => a.eq(b),
        (None, None) => true,
        _ => false,
    }
}

/// Whether the two URIs have the same port (both none counts as the same).
pub fn is_same_port(uri: &ParsedUri, initial_uri: &ParsedUri) -> (r: bool)
    ensures
        r == (uri@.port == initial_uri@.port),
{
    match (uri.port, initial_uri.port) {
        (Some(a), Some(b)) => a == b,
        (None, None) => true,
        _ => false,
    }
}

/// Whether the two URIs have the same origin.
pub fn is_same_origin(uri: &ParsedUri, initial_uri: &ParsedUri) -> (r: bool)
    ensures
        r == spec_same_origin(uri@, initial_uri@),
{
    is_same_scheme(uri, initial_uri) && is_same_host(uri, initial_uri) && is_same_port(
        uri,
        initial_uri,
    )
}

/// Having the same origin is an equivalence: every URI has its own origin,
/// the relation goes both ways, and it chains.
pub proof fn lemma_same_origin_is_equivalence(a: UriView, b: UriView, c: UriView)
    ensures
        spec_same_origin(a, a),
        spec_same_origin(a, b) ==> spec_same_origin(b, a),
        spec_same_origin(a, b) && spec_same_origin(b, c) ==> spec_same_origin(a, c),
{
}

/// Two URIs have the same origin exactly when their hosts are equal, their
/// ports are equal (no port matches only no port), and their schemes are
/// equal once taken to lower case (no scheme matches only no scheme).
pub proof fn lemma_same_origin_parts(a: UriView, b: UriView)
    ensures
        spec_same_origin(a, b) <==> {
            &&& a.host == b.host
            &&& a.port == b.port
            &&& match (a.scheme, b.scheme) {
                (Some(x), Some(y)) => crate::text::ascii_lowercase(x)
                    == crate::text::ascii_lowercase(y),
                (None, None) => true,
                _ => false,
            }
        },
{
    if let (Some(x), Some(y)) = (a.scheme, b.scheme) {
        crate::request::lemma_ascii_lowercase(x, y);
    }
}

} // verus!
