use vstd::prelude::*;
use crate::manifest::error::Error;
use crate::manifest::formats::{is_not_latest_error, AnyManifest, PolywrapManifest, LATEST_MANIFEST_FORMAT};
use crate::manifest::migrate::{can_migrate, migrate_polywrap_manifest};
use crate::manifest::migration_path::str_eq;
use crate::manifest::migrators::from_010_to_020::migrated_010_to_020;
use crate::manifest::versions::{compare_semver, semver_valid, semver_precedence, semver_parse_error};

verus! {

/// `res` is `manifest` brought to the latest format: a 0.2.0 manifest as it
/// is, a 0.1.0 manifest migrated.
pub open spec fn upgraded(manifest: AnyManifest, res: PolywrapManifest) -> bool {
    match manifest {
        AnyManifest::PolywrapManifest020(m) => res == m,
        AnyManifest::PolywrapManifest010(m) => migrated_010_to_020(m, res),
    }
}

/// The latest manifest format.
pub open spec fn latest_format() -> Seq<char> {
    "0.2.0"@
}

/// Whether the known migrations can bring `manifest` to format `to`.
pub fn can_migrate_to(manifest: &AnyManifest, to: &str) -> (res: bool)
    ensures
        res == can_migrate(*manifest, to@),
{
    proof {
        reveal_strlit("0.1.0");
        reveal_strlit("0.2.0");
    }
    match manifest {
        AnyManifest::PolywrapManifest020(m) => str_eq(m.format.as_str(), to),
        AnyManifest::PolywrapManifest010(m) => str_eq(m.format.as_str(), "0.1.0") && str_eq(
            to,
            "0.2.0",
        ),
    }
}

/// Brings `manifest` to the latest format, given the sign `order` of the
/// semver precedence of its format against the latest one: an older manifest
/// is migrated, a manifest in the latest format is taken as it is.
pub fn upgrade_manifest(manifest: AnyManifest, order: i8) -> (res: Result<PolywrapManifest, Error>)
    requires
        order == 0 || (order == -1 && can_migrate(manifest, latest_format())),
    ensures
        order == -1 ==> (res matches Ok(m) && upgraded(manifest, m)),
        order == 0 ==> match manifest {
            AnyManifest::PolywrapManifest020(m) => res == Ok::<PolywrapManifest, Error>(m),
            AnyManifest::PolywrapManifest010(_) => res matches Err(e) && is_not_latest_error(e),
        },
{
    if order == -1 {
        let latest = String::from_str(LATEST_MANIFEST_FORMAT);
        proof {
            reveal_strlit("0.2.0");
        }
        Ok(migrate_polywrap_manifest(manifest, latest))
    } else {
        manifest.get_latest()
    }
}


/// Reading `manifest` as the latest format does not stop the program: where its
/// format and the latest one are semver versions, its format is not newer than
/// the latest one, and an older one is brought to the latest one by the known
/// migrations.
pub open spec fn latest_reachable(manifest: AnyManifest) -> bool {
    semver_valid(manifest.spec_format()) && semver_valid(latest_format()) ==> {
        let o = semver_precedence(manifest.spec_format(), latest_format());
        &&& o != 1
        &&& o == -1 ==> can_migrate(manifest, latest_format())
    }
}

/// Brings `manifest` to the latest format by the semver order of its declared
/// format: an older manifest is migrated, one in the latest format is taken as
/// it is, and a format that semver rejects gives `Error::SemverError`.
pub fn latest_manifest(manifest: AnyManifest) -> (res: Result<PolywrapManifest, Error>)
    requires
        latest_reachable(manifest),
    ensures
        !(semver_valid(manifest.spec_format()) && semver_valid(latest_format())) ==> (res matches Err(
            Error::SemverError(m),
        ) && m@ == semver_parse_error(manifest.spec_format(), latest_format())),
        semver_valid(manifest.spec_format()) && semver_valid(latest_format()) ==> {
            let o = semver_precedence(manifest.spec_format(), latest_format());
            &&& o == -1 ==> (res matches Ok(m) && upgraded(manifest, m))
            &&& o == 0 ==> match manifest {
                AnyManifest::PolywrapManifest020(m) => res == Ok::<PolywrapManifest, Error>(m),
                AnyManifest::PolywrapManifest010(_) => res matches Err(e) && is_not_latest_error(e),
            }
        },
{
    proof {
        reveal_strlit("0.2.0");
    }
    let format = manifest.format();
    match compare_semver(format.as_str(), LATEST_MANIFEST_FORMAT) {
        Err(m) => Err(Error::SemverError(m)),
        Ok(order) => upgrade_manifest(manifest, order),
    }
}

/// Why a manifest cannot be brought to the latest format.
#[derive(Clone, Copy, Debug, PartialEq, Eq, Structural)]
pub enum LatestRefusal {
    /// The manifest's format is newer than the latest one.
    NewerFormat,
    /// No run of the known migrations leads from the manifest's format to the
    /// latest one.
    NoMigrationPath,
}

/// Tests whether `latest_manifest` may read `manifest` and reads it when it
/// may. A newer format, or an older one that no known migration brings to the
/// latest one, is refused with the reason.
pub fn try_latest_manifest(manifest: AnyManifest) -> (res: Result<Result<PolywrapManifest, Error>, LatestRefusal>)
    ensures
        res is Ok <==> latest_reachable(manifest),
        !(semver_valid(manifest.spec_format()) && semver_valid(latest_format())) ==> (res matches Ok(
            Err(Error::SemverError(m)),
        ) && m@ == semver_parse_error(manifest.spec_format(), latest_format())),
        semver_valid(manifest.spec_format()) && semver_valid(latest_format()) ==> {
            let o = semver_precedence(manifest.spec_format(), latest_format());
            &&& o == 1 ==> res == Err::<Result<PolywrapManifest, Error>, LatestRefusal>(
                LatestRefusal::NewerFormat,
            )
            &&& o == -1 && !can_migrate(manifest, latest_format()) ==> res == Err::<
                Result<PolywrapManifest, Error>,
                LatestRefusal,
            >(LatestRefusal::NoMigrationPath)
            &&& o == -1 && can_migrate(manifest, latest_format()) ==> (res matches Ok(Ok(m))
                && upgraded(manifest, m))
            &&& o == 0 ==> match manifest {
                AnyManifest::PolywrapManifest020(m) => res == Ok::<
                    Result<PolywrapManifest, Error>,
                    LatestRefusal,
                >(Ok(m)),
                AnyManifest::PolywrapManifest010(_) => res matches Ok(Err(e)) && is_not_latest_error(e),
            }
        },
{
    proof {
        reveal_strlit("0.2.0");
    }
    let format = manifest.format();
    match compare_semver(format.as_str(), LATEST_MANIFEST_FORMAT) {
        Err(_) => Ok(latest_manifest(manifest)),
        Ok(order) => {
            if order == 1 {
                Err(LatestRefusal::NewerFormat)
            } else if order == -1 && !can_migrate_to(&manifest, LATEST_MANIFEST_FORMAT) {
                Err(LatestRefusal::NoMigrationPath)
            } else {
                Ok(latest_manifest(manifest))
            }
        },
    }
}

} // verus!
