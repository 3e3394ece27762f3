use vstd::prelude::*;
use std::sync::Arc;
use crate::native::error::{ClientError, FFIError};
use vstd::std_specs::cmp::PartialEqSpec;

verus! {

/// What `polywrap_uri` makes of `s` when it parses it as a wrap URI: the
/// authority, the path and the full URI, or the message of the parse error.
pub uninterp spec fn wrap_uri_parse(s: Seq<char>) -> Result<(Seq<char>, Seq<char>, Seq<char>), Seq<char>>;

/// Parses `s` with `polywrap_core::uri::Uri::try_from` and returns the parsed
/// URI's authority, path and full form, or the text of the parse error. The
/// contract claims that the result depends on `s` alone.
#[verifier::external_body]
fn parse_wrap_uri(s: &str) -> (res: Result<(String, String, String), String>)
    ensures
        match res {
            Ok((a, p, u)) => wrap_uri_parse(s@) == Ok::<(Seq<char>, Seq<char>, Seq<char>), Seq<char>>((a@, p@, u@)),
            Err(m) => wrap_uri_parse(s@) == Err::<(Seq<char>, Seq<char>, Seq<char>), Seq<char>>(m@),
        },
{
    match polywrap_core::uri::Uri::try_from(s) {
        Ok(u) => Ok((u.authority().to_string(), u.path().to_string(), u.uri().to_string())),
        Err(e) => Err(e.to_string()),
    }
}

/// A wrap URI: its authority, its path and its full form.
#[derive(Clone, Debug)]
pub struct FFIUri {
    pub authority: String,
    pub path: String,
    pub uri: String,
}

/// `u` holds the parts that parsing `s` gives, or `s` does not parse and the
/// error carries the parse error's message.
pub open spec fn parsed_as(s: Seq<char>, res: Result<FFIUri, FFIError>) -> bool {
    match wrap_uri_parse(s) {
        Ok((a, p, u)) => res matches Ok(x) && x.authority@ == a && x.path@ == p && x.uri@ == u,
        Err(m) => res matches Err(FFIError::UriParseError { err }) && err@ == m,
    }
}

impl FFIUri {
    /// A URI made of the given parts, which are not checked against each other.
    pub fn new(authority: &str, path: &str, uri: &str) -> (res: FFIUri)
        ensures
            res.authority@ == authority@,
            res.path@ == path@,
            res.uri@ == uri@,
    {
        FFIUri {
            authority: String::from_str(authority),
            path: String::from_str(path),
            uri: String::from_str(uri),
        }
    }

    /// A copy of the URI.
    pub fn duplicate(&self) -> (res: FFIUri)
        ensures
            res == *self,
    {
        FFIUri { authority: self.authority.clone(), path: self.path.clone(), uri: self.uri.clone() }
    }

    /// Parses `s` as a wrap URI.
    pub fn parse(s: &str) -> (res: Result<FFIUri, FFIError>)
        ensures
            parsed_as(s@, res),
    {
        match parse_wrap_uri(s) {
            Ok((authority, path, uri)) => Ok(FFIUri { authority, path, uri }),
            Err(err) => Err(FFIError::UriParseError { err }),
        }
    }

    pub fn authority(&self) -> (res: String)
        ensures
            res@ == self.authority@,
    {
        self.authority.clone()
    }

    pub fn path(&self) -> (res: String)
        ensures
            res@ == self.path@,
    {
        self.path.clone()
    }

    /// The full URI.
    pub fn to_string_uri(&self) -> (res: String)
        ensures
            res@ == self.uri@,
    {
        self.uri.clone()
    }

    /// The full URI, as the URI is displayed.
    pub fn to_string(&self) -> (res: String)
        ensures
            res@ == self.uri@,
    {
        self.uri.clone()
    }
}

/// Parses `uri` as a wrap URI.
pub fn ffi_uri_from_string(uri: &str) -> (res: Result<Arc<FFIUri>, FFIError>)
    ensures
        match wrap_uri_parse(uri@) {
            Ok((a, p, u)) => res matches Ok(x) && x.authority@ == a && x.path@ == p && x.uri@ == u,
            Err(m) => res matches Err(FFIError::UriParseError { err }) && err@ == m,
        },
{
    match FFIUri::parse(uri) {
        Ok(u) => Ok(Arc::new(u)),
        Err(e) => Err(e),
    }
}

/// Two URIs are equal when their full forms are.
impl PartialEq for FFIUri {
    fn eq(&self, other: &Self) -> (res: bool) {
        self.uri == other.uri
    }
}

impl vstd::std_specs::cmp::PartialEqSpecImpl for FFIUri {
    open spec fn obeys_eq_spec() -> bool {
        true
    }

    open spec fn eq_spec(&self, other: &FFIUri) -> bool {
        self.uri@ == other.uri@
    }
}

/// Two URIs are equal exactly when their full forms are the same text, whatever
/// their authority and path; equality is reflexive, symmetric and transitive.
pub proof fn lemma_uri_equality(a: FFIUri, b: FFIUri, c: FFIUri)
    ensures
        a.eq_spec(&b) <==> a.uri@ == b.uri@,
        a.uri@.len() != b.uri@.len() ==> !a.eq_spec(&b),
        a.eq_spec(&a),
        a.eq_spec(&b) ==> b.eq_spec(&a),
        a.eq_spec(&b) && b.eq_spec(&c) ==> a.eq_spec(&c),
{
}

impl std::str::FromStr for FFIUri {
    type Err = ClientError;

    /// Parses `s` as a wrap URI; a parse error is the client's URI parse error.
    fn from_str(s: &str) -> (res: Result<FFIUri, ClientError>)
        ensures
            match wrap_uri_parse(s@) {
                Ok((a, p, u)) => res matches Ok(x) && x.authority@ == a && x.path@ == p && x.uri@
                    == u,
                Err(m) => res matches Err(ClientError::UriParseError(err)) && err@ == m,
            },
    {
        match parse_wrap_uri(s) {
            Ok((authority, path, uri)) => Ok(FFIUri { authority, path, uri }),
            Err(err) => Err(ClientError::UriParseError(err)),
        }
    }
}

/// The full form of a URI.
impl From<FFIUri> for String {
    fn from(uri: FFIUri) -> (res: String) {
        uri.uri
    }
}

impl vstd::std_specs::convert::FromSpecImpl<FFIUri> for String {
    open spec fn obeys_from_spec() -> bool {
        true
    }

    open spec fn from_spec(v: FFIUri) -> String {
        v.uri
    }
}

impl TryFrom<&str> for FFIUri {
    type Error = ClientError;

    /// Parses `uri` as a wrap URI; a parse error is the client's URI parse error.
    fn try_from(uri: &str) -> (res: Result<FFIUri, ClientError>)
        ensures
            match wrap_uri_parse(uri@) {
                Ok((a, p, u)) => res matches Ok(x) && x.authority@ == a && x.path@ == p && x.uri@
                    == u,
                Err(m) => res matches Err(ClientError::UriParseError(err)) && err@ == m,
            },
    {
        match parse_wrap_uri(uri) {
            Ok((authority, path, full)) => Ok(FFIUri { authority, path, uri: full }),
            Err(err) => Err(ClientError::UriParseError(err)),
        }
    }
}

/// The contract of `try_from` is its own `ensures`: nothing is claimed through
/// the generic specification.
impl vstd::std_specs::convert::TryFromSpecImpl<&str> for FFIUri {
    open spec fn obeys_try_from_spec() -> bool {
        false
    }

    open spec fn try_from_spec(v: &str) -> Result<FFIUri, ClientError> {
        vstd::pervasive::arbitrary()
    }
}

impl TryFrom<String> for FFIUri {
    type Error = ClientError;

    /// Parses `uri` as a wrap URI; a parse error is the client's URI parse error.
    fn try_from(uri: String) -> (res: Result<FFIUri, ClientError>)
        ensures
            match wrap_uri_parse(uri@) {
                Ok((a, p, u)) => res matches Ok(x) && x.authority@ == a && x.path@ == p && x.uri@
                    == u,
                Err(m) => res matches Err(ClientError::UriParseError(err)) && err@ == m,
            },
    {
        match parse_wrap_uri(uri.as_str()) {
            Ok((authority, path, full)) => Ok(FFIUri { authority, path, uri: full }),
            Err(err) => Err(ClientError::UriParseError(err)),
        }
    }
}

/// The contract of `try_from` is its own `ensures`: nothing is claimed through
/// the generic specification.
impl vstd::std_specs::convert::TryFromSpecImpl<String> for FFIUri {
    open spec fn obeys_try_from_spec() -> bool {
        false
    }

    open spec fn try_from_spec(v: String) -> Result<FFIUri, ClientError> {
        vstd::pervasive::arbitrary()
    }
}

} // verus!
