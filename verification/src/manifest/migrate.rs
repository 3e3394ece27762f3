use vstd::prelude::*;
use crate::manifest::formats::{AnyManifest, PolywrapManifest};
use crate::manifest::get_migrators::{get_migrators, is_010_to_020_migrator, lemma_known_migration_paths};
use crate::manifest::migration_path::find_shortest_migration_path;
use crate::manifest::migrator::migration_accepts;
use crate::manifest::migrators::from_010_to_020::migrated_010_to_020;

verus! {

/// The known migrations can bring `manifest` to format `to` and yield a
/// manifest in the latest format: either it already is a 0.2.0 manifest that
/// declares format `to`, or it is a 0.1.0 manifest declaring format 0.1.0 and
/// `to` is 0.2.0.
pub open spec fn can_migrate(manifest: AnyManifest, to: Seq<char>) -> bool {
    ||| manifest.spec_format() == to && manifest is PolywrapManifest020
    ||| manifest.spec_format() == "0.1.0"@ && to == "0.2.0"@ && manifest is PolywrapManifest010
}

/// Migrates `manifest` to format `to` along a shortest run of the known
/// migrators, and returns the result in the latest format.
pub fn migrate_polywrap_manifest(manifest: AnyManifest, to: String) -> (res: PolywrapManifest)
    requires
        can_migrate(manifest, to@),
    ensures
        match manifest {
            AnyManifest::PolywrapManifest020(m) => res == m,
            AnyManifest::PolywrapManifest010(m) => migrated_010_to_020(m, res),
        },
        res.format@ == to@,
{
    let from = manifest.format();
    let migrators = get_migrators();
    let ghost ms = migrators@;
    proof {
        lemma_known_migration_paths(ms, from@, to@);
    }
    let migration_path = find_shortest_migration_path(&migrators, from.as_str(), to.as_str());
    let path = match migration_path {
        Some(p) => p,
        None => {
            return vstd::pervasive::unreached();
        },
    };
    proof {
        if from@ != to@ {
            assert(ms.contains(path@[0]));
            assert(is_010_to_020_migrator(path@[0]));
        }
    }
    let mut migrated_manifest = manifest;
    let mut i: usize = 0;
    while i < path.len()
        invariant
            path@.len() <= 1,
            i <= path@.len(),
            path@.len() == 0 ==> from@ == to@,
            path@.len() == 1 ==> is_010_to_020_migrator(path@[0]) && from@ != to@,
            can_migrate(manifest, to@),
            from@ == manifest.spec_format(),
            i == 0 ==> migrated_manifest == manifest,
            i == 1 ==> match (manifest, migrated_manifest) {
                (AnyManifest::PolywrapManifest010(a), AnyManifest::PolywrapManifest020(b)) =>
                    migrated_010_to_020(a, b),
                _ => false,
            },
        decreases path@.len() - i,
    {
        assert(migration_accepts(path@[i as int].migrate, migrated_manifest));
        migrated_manifest = path[i].apply(migrated_manifest);
        i = i + 1;
    }
    proof {
        reveal_strlit("0.1.0");
        reveal_strlit("0.2.0");
        assert("0.1.0"@ != "0.2.0"@) by {
            assert("0.1.0"@[2] != "0.2.0"@[2]);
        }
    }
    let latest = migrated_manifest.get_latest();
    match latest {
        Ok(m) => m,
        Err(_) => vstd::pervasive::unreached(),
    }
}

} // verus!
