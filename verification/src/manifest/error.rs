use vstd::prelude::*;

verus! {

/// Errors raised while reading, validating and migrating manifests.
#[derive(Clone, Debug)]
pub enum Error {
    DeserializeError(String),
    ValidationError(String),
    JSONError(String),
    FromJSONError(String),
    JSONSchemaError(String),
    MsgpackDecodeError(String),
    SemverError(String),
}

impl Error {
    /// The message the error is displayed with.
    pub fn to_string(&self) -> (res: String)
        ensures
            res@ == self.spec_message(),
    {
        match self {
            Error::DeserializeError(s) => concat3("`", s.as_str(), "`"),
            Error::ValidationError(s) => concat3("`", s.as_str(), "`"),
            Error::JSONError(s) => concat3("Serde JSON error: `", s.as_str(), "`"),
            Error::FromJSONError(s) => concat3("From JSON conversion error: `", s.as_str(), "`"),
            Error::JSONSchemaError(s) => concat3("JSONSchema error: `", s.as_str(), "`"),
            Error::MsgpackDecodeError(s) => concat3("Msgpack decode error: `", s.as_str(), "`"),
            Error::SemverError(s) => concat3("Semver error: `", s.as_str(), "`"),
        }
    }

    pub open spec fn spec_message(&self) -> Seq<char> {
        match self {
            Error::DeserializeError(s) => "`"@ + s@ + "`"@,
            Error::ValidationError(s) => "`"@ + s@ + "`"@,
            Error::JSONError(s) => "Serde JSON error: `"@ + s@ + "`"@,
            Error::FromJSONError(s) => "From JSON conversion error: `"@ + s@ + "`"@,
            Error::JSONSchemaError(s) => "JSONSchema error: `"@ + s@ + "`"@,
            Error::MsgpackDecodeError(s) => "Msgpack decode error: `"@ + s@ + "`"@,
            Error::SemverError(s) => "Semver error: `"@ + s@ + "`"@,
        }
    }
}

/// `a`, `b` and `c` joined.
pub fn concat3(a: &str, b: &str, c: &str) -> (res: String)
    ensures
        res@ == a@ + b@ + c@,
{
    let mut res = String::from_str(a);
    res.append(b);
    res.append(c);
    res
}

} // verus!
