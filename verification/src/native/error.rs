use vstd::prelude::*;
use std::collections::HashMap;
use crate::manifest::error::concat3;

verus! {

/// Errors that the native bindings report.
#[derive(Clone, Debug)]
pub enum FFIError {
    UriParseError { err: String },
    RedirectsError { err: String, resolution_stack: HashMap<String, String> },
    WrapperError { err: String },
    WrapperCreateError { err: String },
    InvokeError { uri: String, method: String, err: String },
    LoadWrapperError { uri: String, err: String },
    WasmWrapperError { err: String },
    ResolutionError { err: String },
    UriNotFoundError { uri: String },
    MsgpackError { err: String },
    ManifestError { err: String },
    FileReadError { err: String },
    ResolverError { err: String },
    PluginError { err: String },
    RuntimeError { err: String },
    OtherError { err: String },
}

/// `s` written between backquotes.
pub open spec fn quoted(s: Seq<char>) -> Seq<char> {
    "`"@ + s + "`"@
}

/// The resolution stack pretty-printed with `format!("{:#?}")`. The order in
/// which a `HashMap` is walked differs from one process to another, so of a
/// stack with entries nothing is claimed; an empty stack prints as `{}`.
#[verifier::external_body]
fn format_resolution_stack(stack: &HashMap<String, String>) -> (res: String)
    ensures
        res@ == seq!['{', '}'] || stack@.dom().len() > 0,
{
    format!("{:#?}", stack)
}

impl FFIError {
    /// The message of the error, except for the resolution stack of a
    /// `RedirectsError`, whose text depends on the order of a hash map.
    pub open spec fn spec_message(&self) -> Seq<char> {
        match self {
            FFIError::UriParseError { err } => "Error parsing URI: "@ + quoted(err@),
            FFIError::RedirectsError { err, .. } => quoted(err@),
            FFIError::WrapperError { err } => quoted(err@),
            FFIError::WrapperCreateError { err } => "Failed to create wrapper: "@ + quoted(err@),
            FFIError::InvokeError { uri, method, err } => "Failed to invoke wrapper, uri: "@
                + quoted(uri@) + ", method: "@ + quoted(method@) + ": "@ + quoted(err@),
            FFIError::LoadWrapperError { err, .. } => "Error loading wrapper: "@ + quoted(err@),
            FFIError::WasmWrapperError { err } => "WasmWrapper error: "@ + quoted(err@),
            FFIError::ResolutionError { err } => "Failed to resolve wrapper: "@ + quoted(err@),
            FFIError::UriNotFoundError { uri } => "URI not found: "@ + quoted(uri@),
            FFIError::MsgpackError { err } => quoted(err@),
            FFIError::ManifestError { err } => quoted(err@),
            FFIError::FileReadError { err } => "Error reading file: "@ + quoted(err@),
            FFIError::ResolverError { err } => quoted(err@),
            FFIError::PluginError { err } => quoted(err@),
            FFIError::RuntimeError { err } => quoted(err@),
            FFIError::OtherError { err } => quoted(err@),
        }
    }

    /// The message the error is displayed with. For a `RedirectsError` the
    /// message is followed by the resolution stack.
    pub fn to_string(&self) -> (res: String)
        ensures
            self is RedirectsError ==> exists|stack: Seq<char>|
                res@ == self.spec_message() + "\nResolution Stack: "@ + quoted(stack),
            self matches FFIError::RedirectsError { resolution_stack, .. } && resolution_stack@
                == Map::<String, String>::empty() ==> res@ == self.spec_message()
                + "\nResolution Stack: "@ + quoted("{}"@),
            !(self is RedirectsError) ==> res@ == self.spec_message(),
    {
        match self {
            FFIError::UriParseError { err } => prefixed("Error parsing URI: ", err.as_str()),
            FFIError::RedirectsError { err, resolution_stack } => {
                let stack = format_resolution_stack(resolution_stack);
                let mut res = concat3("`", err.as_str(), "`");
                res.append("\nResolution Stack: ");
                res.append("`");
                res.append(stack.as_str());
                res.append("`");
                assert(res@ == quoted(err@) + "\nResolution Stack: "@ + quoted(stack@));
                proof {
                    reveal_strlit("{}");
                    if resolution_stack@ == Map::<String, String>::empty() {
                        assert(resolution_stack@.dom() =~= Set::<String>::empty());
                        assert(stack@ == "{}"@);
                    }
                }
                res
            },
            FFIError::WrapperError { err } => concat3("`", err.as_str(), "`"),
            FFIError::WrapperCreateError { err } => prefixed("Failed to create wrapper: ", err.as_str()),
            FFIError::InvokeError { uri, method, err } => {
                let mut res = prefixed("Failed to invoke wrapper, uri: ", uri.as_str());
                res.append(", method: ");
                res.append("`");
                res.append(method.as_str());
                res.append("`");
                res.append(": ");
                res.append("`");
                res.append(err.as_str());
                res.append("`");
                res
            },
            FFIError::LoadWrapperError { err, .. } => prefixed("Error loading wrapper: ", err.as_str()),
            FFIError::WasmWrapperError { err } => prefixed("WasmWrapper error: ", err.as_str()),
            FFIError::ResolutionError { err } => prefixed("Failed to resolve wrapper: ", err.as_str()),
            FFIError::UriNotFoundError { uri } => prefixed("URI not found: ", uri.as_str()),
            FFIError::MsgpackError { err } => concat3("`", err.as_str(), "`"),
            FFIError::ManifestError { err } => concat3("`", err.as_str(), "`"),
            FFIError::FileReadError { err } => prefixed("Error reading file: ", err.as_str()),
            FFIError::ResolverError { err } => concat3("`", err.as_str(), "`"),
            FFIError::PluginError { err } => concat3("`", err.as_str(), "`"),
            FFIError::RuntimeError { err } => concat3("`", err.as_str(), "`"),
            FFIError::OtherError { err } => concat3("`", err.as_str(), "`"),
        }
    }
}

/// An error of the Polywrap client, with each outside value held as its text:
/// the URI parse error by its message, the msgpack error by the text it is
/// displayed with.
#[derive(Clone, Debug)]
pub enum ClientError {
    UriParseError(String),
    RedirectsError(String, HashMap<String, String>),
    WrapperError(String),
    WrapperCreateError(String),
    InvokeError(String, String, String),
    LoadWrapperError(String, String),
    WasmWrapperError(String),
    ResolutionError(String),
    UriNotFoundError(String),
    MsgpackError(String),
    ManifestError(String),
    FileReadError(String),
    ResolverError(String),
    PluginError(String),
    RuntimeError(String),
    OtherError(String),
}

impl From<ClientError> for FFIError {
    /// The bindings' form of a client error.
    fn from(value: ClientError) -> (res: FFIError) {
        match value {
            ClientError::UriParseError(err) => FFIError::UriParseError { err },
            ClientError::RedirectsError(err, resolution_stack) => FFIError::RedirectsError {
                err,
                resolution_stack,
            },
            ClientError::WrapperError(err) => FFIError::WrapperError { err },
            ClientError::WrapperCreateError(err) => FFIError::WrapperCreateError { err },
            ClientError::InvokeError(uri, method, err) => FFIError::InvokeError { uri, method, err },
            ClientError::LoadWrapperError(uri, err) => FFIError::LoadWrapperError { uri, err },
            ClientError::WasmWrapperError(err) => FFIError::WasmWrapperError { err },
            ClientError::ResolutionError(err) => FFIError::ResolutionError { err },
            ClientError::UriNotFoundError(uri) => FFIError::UriNotFoundError { uri },
            ClientError::MsgpackError(err) => FFIError::MsgpackError { err },
            ClientError::ManifestError(err) => FFIError::ManifestError { err },
            ClientError::FileReadError(err) => FFIError::FileReadError { err },
            ClientError::ResolverError(err) => FFIError::ResolverError { err },
            ClientError::PluginError(err) => FFIError::PluginError { err },
            ClientError::RuntimeError(err) => FFIError::RuntimeError { err },
            ClientError::OtherError(err) => FFIError::OtherError { err },
        }
    }
}

impl vstd::std_specs::convert::FromSpecImpl<ClientError> for FFIError {
    open spec fn obeys_from_spec() -> bool {
        true
    }

    open spec fn from_spec(v: ClientError) -> FFIError {
        ffi_error_of(v)
    }
}

/// The bindings' form of the client error `c`.
pub open spec fn ffi_error_of(c: ClientError) -> FFIError {
    match c {
        ClientError::UriParseError(err) => FFIError::UriParseError { err },
        ClientError::RedirectsError(err, resolution_stack) => FFIError::RedirectsError {
            err,
            resolution_stack,
        },
        ClientError::WrapperError(err) => FFIError::WrapperError { err },
        ClientError::WrapperCreateError(err) => FFIError::WrapperCreateError { err },
        ClientError::InvokeError(uri, method, err) => FFIError::InvokeError { uri, method, err },
        ClientError::LoadWrapperError(uri, err) => FFIError::LoadWrapperError { uri, err },
        ClientError::WasmWrapperError(err) => FFIError::WasmWrapperError { err },
        ClientError::ResolutionError(err) => FFIError::ResolutionError { err },
        ClientError::UriNotFoundError(uri) => FFIError::UriNotFoundError { uri },
        ClientError::MsgpackError(err) => FFIError::MsgpackError { err },
        ClientError::ManifestError(err) => FFIError::ManifestError { err },
        ClientError::FileReadError(err) => FFIError::FileReadError { err },
        ClientError::ResolverError(err) => FFIError::ResolverError { err },
        ClientError::PluginError(err) => FFIError::PluginError { err },
        ClientError::RuntimeError(err) => FFIError::RuntimeError { err },
        ClientError::OtherError(err) => FFIError::OtherError { err },
    }
}

/// The client's form of the bindings' error `f`.
pub open spec fn client_error_of(f: FFIError) -> ClientError {
    match f {
        FFIError::UriParseError { err } => ClientError::UriParseError(err),
        FFIError::RedirectsError { err, resolution_stack } => ClientError::RedirectsError(
            err,
            resolution_stack,
        ),
        FFIError::WrapperError { err } => ClientError::WrapperError(err),
        FFIError::WrapperCreateError { err } => ClientError::WrapperCreateError(err),
        FFIError::InvokeError { uri, method, err } => ClientError::InvokeError(uri, method, err),
        FFIError::LoadWrapperError { uri, err } => ClientError::LoadWrapperError(uri, err),
        FFIError::WasmWrapperError { err } => ClientError::WasmWrapperError(err),
        FFIError::ResolutionError { err } => ClientError::ResolutionError(err),
        FFIError::UriNotFoundError { uri } => ClientError::UriNotFoundError(uri),
        FFIError::MsgpackError { err } => ClientError::MsgpackError(err),
        FFIError::ManifestError { err } => ClientError::ManifestError(err),
        FFIError::FileReadError { err } => ClientError::FileReadError(err),
        FFIError::ResolverError { err } => ClientError::ResolverError(err),
        FFIError::PluginError { err } => ClientError::PluginError(err),
        FFIError::RuntimeError { err } => ClientError::RuntimeError(err),
        FFIError::OtherError { err } => ClientError::OtherError(err),
    }
}

impl From<FFIError> for ClientError {
    /// The client's form of a bindings' error.
    fn from(value: FFIError) -> (res: ClientError) {
        match value {
            FFIError::UriParseError { err } => ClientError::UriParseError(err),
            FFIError::RedirectsError { err, resolution_stack } => ClientError::RedirectsError(
                err,
                resolution_stack,
            ),
            FFIError::WrapperError { err } => ClientError::WrapperError(err),
            FFIError::WrapperCreateError { err } => ClientError::WrapperCreateError(err),
            FFIError::InvokeError { uri, method, err } => ClientError::InvokeError(uri, method, err),
            FFIError::LoadWrapperError { uri, err } => ClientError::LoadWrapperError(uri, err),
            FFIError::WasmWrapperError { err } => ClientError::WasmWrapperError(err),
            FFIError::ResolutionError { err } => ClientError::ResolutionError(err),
            FFIError::UriNotFoundError { uri } => ClientError::UriNotFoundError(uri),
            FFIError::MsgpackError { err } => ClientError::MsgpackError(err),
            FFIError::ManifestError { err } => ClientError::ManifestError(err),
            FFIError::FileReadError { err } => ClientError::FileReadError(err),
            FFIError::ResolverError { err } => ClientError::ResolverError(err),
            FFIError::PluginError { err } => ClientError::PluginError(err),
            FFIError::RuntimeError { err } => ClientError::RuntimeError(err),
            FFIError::OtherError { err } => ClientError::OtherError(err),
        }
    }
}

impl vstd::std_specs::convert::FromSpecImpl<FFIError> for ClientError {
    open spec fn obeys_from_spec() -> bool {
        true
    }

    open spec fn from_spec(v: FFIError) -> ClientError {
        client_error_of(v)
    }
}

/// Converting a client error to the bindings' error and back gives the same
/// error, and so does converting a bindings' error to the client's and back.
pub proof fn lemma_error_conversions_roundtrip(c: ClientError, f: FFIError)
    ensures
        client_error_of(ffi_error_of(c)) == c,
        ffi_error_of(client_error_of(f)) == f,
{
}

/// The name of the variant of the client error `c`.
pub open spec fn client_error_name(c: ClientError) -> Seq<char> {
    match c {
        ClientError::UriParseError(..) => "UriParseError"@,
        ClientError::RedirectsError(..) => "RedirectsError"@,
        ClientError::WrapperError(..) => "WrapperError"@,
        ClientError::WrapperCreateError(..) => "WrapperCreateError"@,
        ClientError::InvokeError(..) => "InvokeError"@,
        ClientError::LoadWrapperError(..) => "LoadWrapperError"@,
        ClientError::WasmWrapperError(..) => "WasmWrapperError"@,
        ClientError::ResolutionError(..) => "ResolutionError"@,
        ClientError::UriNotFoundError(..) => "UriNotFoundError"@,
        ClientError::MsgpackError(..) => "MsgpackError"@,
        ClientError::ManifestError(..) => "ManifestError"@,
        ClientError::FileReadError(..) => "FileReadError"@,
        ClientError::ResolverError(..) => "ResolverError"@,
        ClientError::PluginError(..) => "PluginError"@,
        ClientError::RuntimeError(..) => "RuntimeError"@,
        ClientError::OtherError(..) => "OtherError"@,
    }
}

/// The name of the variant of the bindings' error `f`.
pub open spec fn ffi_error_name(f: FFIError) -> Seq<char> {
    match f {
        FFIError::UriParseError { .. } => "UriParseError"@,
        FFIError::RedirectsError { .. } => "RedirectsError"@,
        FFIError::WrapperError { .. } => "WrapperError"@,
        FFIError::WrapperCreateError { .. } => "WrapperCreateError"@,
        FFIError::InvokeError { .. } => "InvokeError"@,
        FFIError::LoadWrapperError { .. } => "LoadWrapperError"@,
        FFIError::WasmWrapperError { .. } => "WasmWrapperError"@,
        FFIError::ResolutionError { .. } => "ResolutionError"@,
        FFIError::UriNotFoundError { .. } => "UriNotFoundError"@,
        FFIError::MsgpackError { .. } => "MsgpackError"@,
        FFIError::ManifestError { .. } => "ManifestError"@,
        FFIError::FileReadError { .. } => "FileReadError"@,
        FFIError::ResolverError { .. } => "ResolverError"@,
        FFIError::PluginError { .. } => "PluginError"@,
        FFIError::RuntimeError { .. } => "RuntimeError"@,
        FFIError::OtherError { .. } => "OtherError"@,
    }
}

/// The texts the client error `c` carries, in order, and its resolution stack
/// if it has one.
pub open spec fn client_error_fields(c: ClientError) -> (Seq<Seq<char>>, Option<HashMap<String, String>>) {
    match c {
        ClientError::UriParseError(a) => (seq![a@], None),
        ClientError::RedirectsError(a, stack) => (seq![a@], Some(stack)),
        ClientError::WrapperError(a) => (seq![a@], None),
        ClientError::WrapperCreateError(a) => (seq![a@], None),
        ClientError::InvokeError(a, b, c) => (seq![a@, b@, c@], None),
        ClientError::LoadWrapperError(a, b) => (seq![a@, b@], None),
        ClientError::WasmWrapperError(a) => (seq![a@], None),
        ClientError::ResolutionError(a) => (seq![a@], None),
        ClientError::UriNotFoundError(a) => (seq![a@], None),
        ClientError::MsgpackError(a) => (seq![a@], None),
        ClientError::ManifestError(a) => (seq![a@], None),
        ClientError::FileReadError(a) => (seq![a@], None),
        ClientError::ResolverError(a) => (seq![a@], None),
        ClientError::PluginError(a) => (seq![a@], None),
        ClientError::RuntimeError(a) => (seq![a@], None),
        ClientError::OtherError(a) => (seq![a@], None),
    }
}

/// The texts the bindings' error `f` carries, in order, and its resolution
/// stack if it has one.
pub open spec fn ffi_error_fields(f: FFIError) -> (Seq<Seq<char>>, Option<HashMap<String, String>>) {
    match f {
        FFIError::UriParseError { err: a } => (seq![a@], None),
        FFIError::RedirectsError { err: a, resolution_stack: stack } => (seq![a@], Some(stack)),
        FFIError::WrapperError { err: a } => (seq![a@], None),
        FFIError::WrapperCreateError { err: a } => (seq![a@], None),
        FFIError::InvokeError { uri: a, method: b, err: c } => (seq![a@, b@, c@], None),
        FFIError::LoadWrapperError { uri: a, err: b } => (seq![a@, b@], None),
        FFIError::WasmWrapperError { err: a } => (seq![a@], None),
        FFIError::ResolutionError { err: a } => (seq![a@], None),
        FFIError::UriNotFoundError { uri: a } => (seq![a@], None),
        FFIError::MsgpackError { err: a } => (seq![a@], None),
        FFIError::ManifestError { err: a } => (seq![a@], None),
        FFIError::FileReadError { err: a } => (seq![a@], None),
        FFIError::ResolverError { err: a } => (seq![a@], None),
        FFIError::PluginError { err: a } => (seq![a@], None),
        FFIError::RuntimeError { err: a } => (seq![a@], None),
        FFIError::OtherError { err: a } => (seq![a@], None),
    }
}

/// Each conversion keeps the variant and its fields: a client error becomes the
/// bindings' error of the variant with the same name, carrying the same texts
/// and resolution stack, and the other way round.
pub proof fn lemma_error_conversions_keep_variant(c: ClientError, f: FFIError)
    ensures
        ffi_error_name(ffi_error_of(c)) == client_error_name(c),
        ffi_error_fields(ffi_error_of(c)) == client_error_fields(c),
        client_error_name(client_error_of(f)) == ffi_error_name(f),
        client_error_fields(client_error_of(f)) == ffi_error_fields(f),
{
}

/// `prefix` followed by `s` between backquotes.
fn prefixed(prefix: &str, s: &str) -> (res: String)
    ensures
        res@ == prefix@ + quoted(s@),
{
    let mut res = String::from_str(prefix);
    res.append("`");
    res.append(s);
    res.append("`");
    res
}

} // verus!
