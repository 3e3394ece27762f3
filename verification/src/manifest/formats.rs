use vstd::prelude::*;

verus! {

/// An entry of `import_redirects` in a 0.1.0 manifest.
#[derive(Clone, Debug)]
pub struct ImportRedirects {
    pub uri: String,
    pub schema: String,
}

/// A Polywrap project manifest in format 0.1.0.
#[derive(Clone, Debug)]
pub struct PolywrapManifest010 {
    pub format: String,
    pub name: String,
    pub language: String,
    pub build: Option<String>,
    pub deploy: Option<String>,
    pub meta: Option<String>,
    pub module: Option<String>,
    pub schema: String,
    pub import_redirects: Option<Vec<ImportRedirects>>,
}

/// An entry of `source.import_abis` in a 0.2.0 manifest.
#[derive(Clone, Debug)]
pub struct ImportAbis {
    pub uri: String,
    pub abi: String,
}

#[derive(Clone, Debug)]
pub struct PolywrapManifest020Project {
    pub name: String,
    pub type_: String,
}

#[derive(Clone, Debug)]
pub struct PolywrapManifest020Source {
    pub import_abis: Option<Vec<ImportAbis>>,
    pub module: Option<String>,
    pub schema: String,
}

#[derive(Clone, Debug)]
pub struct PolywrapManifest020Extensions {
    pub build: Option<String>,
    pub deploy: Option<String>,
    pub meta: Option<String>,
    pub infra: Option<String>,
}

/// A Polywrap project manifest in format 0.2.0.
#[derive(Clone, Debug)]
pub struct PolywrapManifest020 {
    pub format: String,
    pub project: PolywrapManifest020Project,
    pub source: PolywrapManifest020Source,
    pub extensions: Option<PolywrapManifest020Extensions>,
}

/// The manifest in the latest format.
pub type PolywrapManifest = PolywrapManifest020;

/// The latest manifest format.
pub const LATEST_MANIFEST_FORMAT: &'static str = "0.2.0";

/// The error for reading a manifest of an older format as the latest format.
pub open spec fn is_not_latest_error(e: crate::manifest::error::Error) -> bool {
    e matches crate::manifest::error::Error::DeserializeError(m) && m@
        == "Manifest is not in the latest format"@
}

/// A manifest in any of the known formats.
#[derive(Clone, Debug)]
pub enum AnyManifest {
    PolywrapManifest010(PolywrapManifest010),
    PolywrapManifest020(PolywrapManifest020),
}

impl AnyManifest {
    /// The format the manifest declares.
    pub open spec fn spec_format(&self) -> Seq<char> {
        match self {
            AnyManifest::PolywrapManifest010(m) => m.format@,
            AnyManifest::PolywrapManifest020(m) => m.format@,
        }
    }

    /// The manifest's `format` field.
    pub fn format(&self) -> (res: String)
        ensures
            res@ == self.spec_format(),
    {
        match self {
            AnyManifest::PolywrapManifest010(m) => m.format.clone(),
            AnyManifest::PolywrapManifest020(m) => m.format.clone(),
        }
    }

    /// The manifest as the latest format, which succeeds only when it already is
    /// in that format.
    pub fn get_latest(self) -> (res: Result<PolywrapManifest, crate::manifest::error::Error>)
        ensures
            match self {
                AnyManifest::PolywrapManifest020(m) => res == Ok::<PolywrapManifest, crate::manifest::error::Error>(m),
                AnyManifest::PolywrapManifest010(_) => res matches Err(e) && is_not_latest_error(e),
            },
    {
        match self {
            AnyManifest::PolywrapManifest020(m) => Ok(m),
            AnyManifest::PolywrapManifest010(_) => {
                proof {
                    reveal_strlit("Manifest is not in the latest format");
                }
                Err(crate::manifest::error::Error::DeserializeError(String::from_str("Manifest is not in the latest format")))
            }
        }
    }
}

} // verus!
