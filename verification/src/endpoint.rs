//! Where batches are sent: a host, an optional port and a path, resolved
//! into an absolute URI.

use hyper::http::uri::InvalidUri;
use hyper::Uri;
use vstd::prelude::*;
use vstd::string::StringExecFns;

verus! {

/// The path of the trace ingest API.
pub const TRACE_API_PATH: &'static str = "trace/v1";

/// An absolute URI, parsed and validated.
#[verifier::external_type_specification]
#[verifier::external_body]
pub struct ExUri(Uri);

/// The reason a text is no URI.
#[verifier::external_type_specification]
#[verifier::external_body]
pub struct ExInvalidUri(InvalidUri);

/// The URI that `text` parses as, if it is one.
pub uninterp spec fn parsed_uri(text: Seq<char>) -> Option<Uri>;

/// Parses `text` with `Uri::from_str`. The parser reads nothing but the
/// text, so what it returns is `parsed_uri` of the text: the URI where the
/// text is one, an error where it is not.
#[verifier::external_body]
fn parse_uri(text: &str) -> (parsed: Result<Uri, InvalidUri>)
    ensures
        match parsed {
            Ok(uri) => parsed_uri(text@) == Some(uri),
            Err(_) => parsed_uri(text@) is None,
        },
{
    text.parse::<Uri>()
}

/// Copies a URI with `Uri::clone`: the copy equals the URI it was made from.
#[verifier::external_body]
pub(crate) fn clone_uri(uri: &Uri) -> (copy: Uri)
    ensures
        copy == *uri,
{
    uri.clone()
}

/// `String::push` appends one character to the text.
pub assume_specification[ String::push ](text: &mut String, c: char)
    ensures
        final(text)@ == old(text)@.push(c),
;

/// The host, port and path do not make a well-formed absolute URI.
#[derive(Clone, Copy, Debug, PartialEq, Eq, Structural)]
pub struct InvalidEndpoint;

/// An ingest endpoint.
#[derive(Debug)]
pub struct Endpoint {
    /// The host name or address.
    pub host: String,
    /// The port; without one the scheme's standard port is used.
    pub port: Option<u16>,
    /// The path, without its leading slash.
    pub path: &'static str,
}

/// The character that writes the digit `d`.
pub open spec fn digit_char(d: nat) -> char
    recommends
        d < 10,
{
    (0x30 + d) as char
}

/// `n` in decimal, without leading zeros.
pub open spec fn decimal(n: nat) -> Seq<char>
    decreases n,
{
    if n < 10 {
        seq![digit_char(n)]
    } else {
        decimal(n / 10).push(digit_char(n % 10))
    }
}

/// The scheme of a URI: `https` with TLS, `http` without.
pub open spec fn scheme_text(use_tls: bool) -> Seq<char> {
    if use_tls {
        "https"@
    } else {
        "http"@
    }
}

/// The port as it stands in a URI: a colon and the number, or nothing.
pub open spec fn port_text(port: Option<u16>) -> Seq<char> {
    match port {
        Some(p) => ":"@ + decimal(p as nat),
        None => Seq::empty(),
    }
}

/// The text of the URI `scheme://host[:port]/path`.
pub open spec fn uri_text(host: Seq<char>, port: Option<u16>, path: Seq<char>, use_tls: bool) -> Seq<
    char,
> {
    scheme_text(use_tls) + "://"@ + host + port_text(port) + "/"@ + path
}

fn digit(d: u64) -> (c: char)
    requires
        d < 10,
    ensures
        c == digit_char(d as nat),
{
    match d {
        0 => '0',
        1 => '1',
        2 => '2',
        3 => '3',
        4 => '4',
        5 => '5',
        6 => '6',
        7 => '7',
        8 => '8',
        _ => '9',
    }
}

/// Appends `n` in decimal to `text`.
pub fn push_decimal(text: &mut String, n: u64)
    ensures
        final(text)@ == old(text)@ + decimal(n as nat),
    decreases n,
{
    if n >= 10 {
        push_decimal(text, n / 10);
    }
    text.push(digit(n % 10));
    proof {
        if n >= 10 {
            assert(old(text)@ + decimal(n as nat) =~= (old(text)@ + decimal(n as nat / 10)).push(
                digit_char(n as nat % 10),
            ));
        } else {
            assert(old(text)@ + decimal(n as nat) =~= old(text)@.push(digit_char(n as nat)));
        }
    }
}

impl Endpoint {
    /// The text of the endpoint's URI, with scheme `https` if `use_tls` is
    /// set and `http` if not.
    pub fn text(&self, use_tls: bool) -> (text: String)
        ensures
            text@ == uri_text(self.host@, self.port, self.path@, use_tls),
    {
        let mut text = String::from_str(
            if use_tls {
                "https"
            } else {
                "http"
            },
        );
        text.append("://");
        text.append(self.host.as_str());
        let ghost before_port = text@;
        match self.port {
            Some(p) => {
                text.append(":");
                push_decimal(&mut text, p as u64);
                assert(text@ =~= before_port + port_text(self.port));
            },
            None => {
                assert(text@ =~= before_port + port_text(self.port));
            },
        }
        text.append("/");
        text.append(self.path);
        text
    }

    /// Resolves the endpoint into a URI. Fails if the text made of scheme,
    /// host, port and path is not a well-formed absolute URI.
    pub fn uri(&self, use_tls: bool) -> (resolved: Result<Uri, InvalidEndpoint>)
        ensures
            match resolved {
                Ok(uri) => parsed_uri(uri_text(self.host@, self.port, self.path@, use_tls))
                    == Some(uri),
                Err(_) => parsed_uri(uri_text(self.host@, self.port, self.path@, use_tls))
                    is None,
            },
    {
        let text = self.text(use_tls);
        match parse_uri(text.as_str()) {
            Ok(uri) => Ok(uri),
            Err(_) => Err(InvalidEndpoint),
        }
    }
}

} // verus!
