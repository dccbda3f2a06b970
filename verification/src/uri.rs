//! Path URIs of the form `<scheme>://<host>:<port>/<target-id>`.

use crate::error::{SvcError, SvcErrorView};
use vstd::prelude::*;
use vstd::string::*;

verus! {

/// The components of a URI that the agent looks at.
#[derive(Clone, Debug, PartialEq, Eq)]
pub struct UriParts {
    /// The host of the authority, where the URI has an authority.
    pub host: Option<String>,
    /// The port of the authority, where it has one that is a 16-bit number.
    pub port: Option<u16>,
    /// The path, without query and fragment.
    pub path: String,
}

/// Mathematical value of [`UriParts`].
pub struct UriPartsView {
    pub host: Option<Seq<char>>,
    pub port: Option<u16>,
    pub path: Seq<char>,
}

impl View for UriParts {
    type V = UriPartsView;

    open spec fn view(&self) -> UriPartsView {
        UriPartsView {
            host: match self.host {
                Some(h) => Some(h@),
                None => None,
            },
            port: self.port,
            path: self.path@,
        }
    }
}

/// What the `http` crate makes of a text: `None` where it does not accept the
/// text as a URI, else the host, port and path that it reads from it.
pub uninterp spec fn http_uri(text: Seq<char>) -> Option<UriPartsView>;

/// Reads `text` as a URI.
///
/// Trusted: the text goes through `<http::Uri as FromStr>::from_str`; of an
/// accepted URI the result holds what `Uri::host`, `Uri::port_u16` and
/// `Uri::path` return. All four depend on the text alone, so the result is
/// [`http_uri`] of the text. Nothing is claimed of which texts are accepted.
#[verifier::external_body]
fn read_uri(text: &str) -> (r: Option<UriParts>)
    ensures
        match r {
            Some(parts) => http_uri(text@) == Some(parts@),
            None => http_uri(text@) is None,
        },
{
    match text.parse::<http::Uri>() {
        Ok(uri) => Some(
            UriParts {
                host: uri.host().map(str::to_owned),
                port: uri.port_u16(),
                path: uri.path().to_owned(),
            },
        ),
        Err(_) => None,
    }
}

/// The target that a URI path names: the path without its leading separator.
pub open spec fn target_of(path: Seq<char>) -> Seq<char> {
    if path.len() > 0 && path[0] == '/' {
        path.skip(1)
    } else {
        path
    }
}

/// Mathematical value of a [`ParsedUri`].
pub struct ParsedUriView {
    pub host: Seq<char>,
    pub port: u16,
    pub nqn: Seq<char>,
}

/// The host, port and target that URI components stand for, or
/// `InvalidArguments` where the host, the port or the target is missing.
pub open spec fn parsed_parts(parts: UriPartsView) -> Result<ParsedUriView, SvcErrorView> {
    if parts.host is Some && parts.port is Some && target_of(parts.path).len() > 0 {
        Ok(ParsedUriView { host: parts.host->0, port: parts.port->0, nqn: target_of(parts.path) })
    } else {
        Err(SvcErrorView::InvalidArguments)
    }
}

/// The host, port and target that a text stands for, or `InvalidArguments`
/// where it is no URI or lacks one of the three.
pub open spec fn parsed_text(text: Seq<char>) -> Result<ParsedUriView, SvcErrorView> {
    match http_uri(text) {
        Some(parts) => parsed_parts(parts),
        None => Err(SvcErrorView::InvalidArguments),
    }
}

/// Host, port and target of a path URI.
#[derive(Debug, PartialEq, Eq)]
pub struct ParsedUri {
    host: String,
    port: u16,
    nqn: String,
}

impl View for ParsedUri {
    type V = ParsedUriView;

    closed spec fn view(&self) -> ParsedUriView {
        ParsedUriView { host: self.host@, port: self.port, nqn: self.nqn@ }
    }
}

impl Clone for ParsedUri {
    fn clone(&self) -> (r: Self)
        ensures
            r@ == self@,
    {
        proof {
            use_type_invariant(self);
        }
        ParsedUri { host: self.host.clone(), port: self.port, nqn: self.nqn.clone() }
    }
}

/// The path without its leading separator.
fn strip_separator(path: &str) -> (target: &str)
    ensures
        target@ == target_of(path@),
{
    let n = path.unicode_len();
    if n > 0 && path.get_char(0) == '/' {
        path.substring_char(1, n)
    } else {
        path
    }
}

impl ParsedUri {
    /// A parsed URI never names an empty target.
    #[verifier::type_invariant]
    closed spec fn named(self) -> bool {
        self.nqn@.len() > 0
    }

    /// Takes host, port and target from the components of a URI.
    ///
    /// Fails with `InvalidArguments` where the host or the port is absent, or
    /// where nothing is left of the path once its leading separator is gone.
    pub fn new(parts: UriParts) -> (r: Result<ParsedUri, SvcError>)
        ensures
            match r {
                Ok(parsed) => parsed_parts(parts@) == Ok::<ParsedUriView, SvcErrorView>(parsed@),
                Err(e) => parsed_parts(parts@) == Err::<ParsedUriView, SvcErrorView>(e@),
            },
    {
        let UriParts { host, port, path } = parts;
        let host = match host {
            Some(h) => h,
            None => return Err(SvcError::InvalidArguments {  }),
        };
        let port = match port {
            Some(p) => p,
            None => return Err(SvcError::InvalidArguments {  }),
        };
        let target = strip_separator(path.as_str());
        if target.unicode_len() == 0 {
            return Err(SvcError::InvalidArguments {  });
        }
        Ok(ParsedUri { host, port, nqn: target.to_owned() })
    }

    /// The host to reach the target at.
    pub fn host(&self) -> (r: &str)
        ensures
            r@ == self@.host,
    {
        self.host.as_str()
    }

    /// The port to reach the target at.
    pub fn port(&self) -> (r: u16)
        ensures
            r == self@.port,
    {
        self.port
    }

    /// The target's qualified name; it is never empty.
    pub fn nqn(&self) -> (r: String)
        ensures
            r@ == self@.nqn,
            r@.len() > 0,
    {
        proof {
            use_type_invariant(self);
        }
        self.nqn.clone()
    }
}

/// Parses a path URI into host, port and target.
///
/// Fails with `InvalidArguments` where the text is no URI, where host or port
/// is absent, and where the URI names no target.
pub fn parse_uri(new_path: &str) -> (r: Result<ParsedUri, SvcError>)
    ensures
        match r {
            Ok(parsed) => parsed_text(new_path@) == Ok::<ParsedUriView, SvcErrorView>(parsed@),
            Err(e) => parsed_text(new_path@) == Err::<ParsedUriView, SvcErrorView>(e@),
        },
{
    match read_uri(new_path) {
        Some(parts) => ParsedUri::new(parts),
        None => Err(SvcError::InvalidArguments {  }),
    }
}

} // verus!
