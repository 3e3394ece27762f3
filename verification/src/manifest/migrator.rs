use vstd::prelude::*;
use crate::manifest::formats::AnyManifest;
use crate::manifest::migrators::from_010_to_020;

verus! {

/// The rewrite that a migrator performs.
#[derive(Clone, Copy, Debug, PartialEq, Eq, Structural)]
pub enum MigrationKind {
    /// Rewrites a 0.1.0 manifest in format 0.2.0.
    From010To020,
}

/// A step that rewrites a manifest of format `from` into format `to`.
#[derive(Clone, Debug)]
pub struct Migrator {
    pub from: String,
    pub to: String,
    pub migrate: MigrationKind,
}

/// Whether the rewrite `kind` can be applied to `m`.
pub open spec fn migration_accepts(kind: MigrationKind, m: AnyManifest) -> bool {
    match kind {
        MigrationKind::From010To020 => m is PolywrapManifest010,
    }
}

/// `res` is what the rewrite `kind` makes of `m`.
pub open spec fn migration_result(kind: MigrationKind, m: AnyManifest, res: AnyManifest) -> bool {
    match kind {
        MigrationKind::From010To020 => match (m, res) {
            (AnyManifest::PolywrapManifest010(a), AnyManifest::PolywrapManifest020(b)) =>
                from_010_to_020::migrated_010_to_020(a, b),
            _ => false,
        },
    }
}

impl Migrator {
    /// A copy of the migrator.
    pub fn duplicate(&self) -> (res: Migrator)
        ensures
            res == *self,
    {
        Migrator { from: self.from.clone(), to: self.to.clone(), migrate: self.migrate }
    }

    /// Applies the migrator's rewrite to `manifest`.
    pub fn apply(&self, manifest: AnyManifest) -> (res: AnyManifest)
        requires
            migration_accepts(self.migrate, manifest),
        ensures
            migration_result(self.migrate, manifest, res),
    {
        match self.migrate {
            MigrationKind::From010To020 => match manifest {
                AnyManifest::PolywrapManifest010(m) => {
                    AnyManifest::PolywrapManifest020(from_010_to_020::migrate(m))
                },
                AnyManifest::PolywrapManifest020(_) => {
                    proof {
                        assert(false);
                    }
                    manifest
                },
            },
        }
    }
}

} // verus!
