use vstd::prelude::*;
use crate::manifest::formats::{
    ImportAbis, ImportRedirects, PolywrapManifest010, PolywrapManifest020,
    PolywrapManifest020Extensions, PolywrapManifest020Project, PolywrapManifest020Source,
};

verus! {

/// `abis` holds, in order, each import redirect as an ABI import with the same
/// URI and the redirect's schema as ABI.
pub open spec fn abis_from_redirects(abis: Seq<ImportAbis>, redirects: Seq<ImportRedirects>) -> bool {
    &&& abis.len() == redirects.len()
    &&& forall|i: int|
        0 <= i < abis.len() ==> {
            &&& #[trigger] abis[i].uri == redirects[i].uri
            &&& abis[i].abi == redirects[i].schema
        }
}

/// `res` is the 0.2.0 form of the 0.1.0 manifest `m`.
pub open spec fn migrated_010_to_020(m: PolywrapManifest010, res: PolywrapManifest020) -> bool {
    &&& res.format@ == "0.2.0"@
    &&& res.project.name == m.name
    &&& res.project.type_ == m.language
    &&& res.source.module == m.module
    &&& res.source.schema == m.schema
    &&& match m.import_redirects {
        None => res.source.import_abis is None,
        Some(r) => res.source.import_abis matches Some(a) && abis_from_redirects(a@, r@),
    }
    &&& if m.build is Some || m.deploy is Some || m.meta is Some {
        res.extensions matches Some(e) && e.build == m.build && e.deploy == m.deploy && e.meta
            == m.meta && e.infra is None
    } else {
        res.extensions is None
    }
}

/// Rewrites a 0.1.0 manifest in format 0.2.0.
pub fn migrate(manifest: PolywrapManifest010) -> (res: PolywrapManifest020)
    ensures
        migrated_010_to_020(manifest, res),
{
    let ghost m = manifest;
    let should_have_extensions = manifest.build.is_some() || manifest.deploy.is_some()
        || manifest.meta.is_some();
    let import_abis = match manifest.import_redirects {
        Some(redirects) => Some(redirects_to_abis(redirects)),
        None => None,
    };
    let extensions = if should_have_extensions {
        Some(
            PolywrapManifest020Extensions {
                build: manifest.build,
                deploy: manifest.deploy,
                meta: manifest.meta,
                infra: None,
            },
        )
    } else {
        None
    };
    PolywrapManifest020 {
        format: String::from_str("0.2.0"),
        project: PolywrapManifest020Project { name: manifest.name, type_: manifest.language },
        source: PolywrapManifest020Source {
            import_abis,
            module: manifest.module,
            schema: manifest.schema,
        },
        extensions,
    }
}

fn redirects_to_abis(redirects: Vec<ImportRedirects>) -> (res: Vec<ImportAbis>)
    ensures
        abis_from_redirects(res@, redirects@),
{
    let ghost orig = redirects@;
    let mut res: Vec<ImportAbis> = Vec::new();
    let mut rest = redirects;
    while rest.len() > 0
        invariant
            rest@ == orig.skip(res.len() as int),
            res.len() <= orig.len(),
            abis_from_redirects(res@, orig.take(res.len() as int)),
        decreases rest.len(),
    {
        let ghost k = res.len();
        let r = rest.remove(0);
        assert(r == orig[k as int]);
        res.push(ImportAbis { uri: r.uri, abi: r.schema });
        assert(rest@ =~= orig.skip(res.len() as int));
        assert forall|i: int| 0 <= i < res.len() implies {
            &&& #[trigger] res@[i].uri == orig.take(res.len() as int)[i].uri
            &&& res@[i].abi == orig.take(res.len() as int)[i].schema
        } by {
            if i < k {
                assert(orig.take(res.len() as int)[i] == orig.take(k as int)[i]);
            }
        }
    }
    assert(orig.take(orig.len() as int) == orig);
    res
}

} // verus!
