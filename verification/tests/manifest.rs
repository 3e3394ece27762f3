use polywrap::manifest::deserialize::{
    can_migrate_to, latest_manifest, try_latest_manifest, upgrade_manifest, LatestRefusal,
};
use polywrap::manifest::error::Error;
use polywrap::manifest::formats::{
    AnyManifest, ImportRedirects, PolywrapManifest010, PolywrapManifest020,
    PolywrapManifest020Project, PolywrapManifest020Source, LATEST_MANIFEST_FORMAT,
};
use polywrap::manifest::generate;
use polywrap::manifest::get_migrators::get_migrators;
use polywrap::manifest::migrate::migrate_polywrap_manifest;
use polywrap::manifest::migration_path::{find_shortest_migration_path, str_eq};
use polywrap::manifest::migrator::{MigrationKind, Migrator};
use polywrap::manifest::migrators::from_010_to_020::migrate;
use polywrap::manifest::utils::sanitize_semver_version;
use polywrap::manifest::versions::compare_semver;

fn manifest_010(format: &str) -> PolywrapManifest010 {
    PolywrapManifest010 {
        format: format.to_string(),
        name: "test-wrap".to_string(),
        language: "wasm/rust".to_string(),
        build: Some("./polywrap.build.yaml".to_string()),
        deploy: None,
        meta: None,
        module: Some("./Cargo.toml".to_string()),
        schema: "./schema.graphql".to_string(),
        import_redirects: Some(vec![
            ImportRedirects { uri: "wrap://ens/a.eth".to_string(), schema: "./a.graphql".to_string() },
            ImportRedirects { uri: "wrap://ens/b.eth".to_string(), schema: "./b.graphql".to_string() },
        ]),
    }
}

fn manifest_020(format: &str) -> PolywrapManifest020 {
    PolywrapManifest020 {
        format: format.to_string(),
        project: PolywrapManifest020Project {
            name: "test-wrap".to_string(),
            type_: "wasm/rust".to_string(),
        },
        source: PolywrapManifest020Source {
            import_abis: None,
            module: None,
            schema: "./schema.graphql".to_string(),
        },
        extensions: None,
    }
}

fn migrator(from: &str, to: &str) -> Migrator {
    Migrator { from: from.to_string(), to: to.to_string(), migrate: MigrationKind::From010To020 }
}

#[test]
fn sanitize_adds_patch_to_major_minor() {
    assert_eq!(sanitize_semver_version("0.1"), "0.1.0");
    assert_eq!(sanitize_semver_version("1.2.3"), "1.2.3");
    assert_eq!(sanitize_semver_version("1"), "1");
    assert_eq!(sanitize_semver_version(""), "");
    assert_eq!(sanitize_semver_version("."), "..0");
    assert_eq!(sanitize_semver_version("1.2.3.4"), "1.2.3.4");
}

#[test]
fn sanitize_is_idempotent() {
    for v in ["0.1", "1", "1.2.3", "", ".", "a.b"] {
        let once = sanitize_semver_version(v);
        assert_eq!(sanitize_semver_version(&once), once);
    }
}

#[test]
fn migrate_010_to_020_moves_fields() {
    let migrated = migrate(manifest_010("0.1.0"));
    assert_eq!(migrated.format, "0.2.0");
    assert_eq!(migrated.project.name, "test-wrap");
    assert_eq!(migrated.project.type_, "wasm/rust");
    assert_eq!(migrated.source.module, Some("./Cargo.toml".to_string()));
    assert_eq!(migrated.source.schema, "./schema.graphql");
    let abis = migrated.source.import_abis.unwrap();
    assert_eq!(abis.len(), 2);
    assert_eq!(abis[0].uri, "wrap://ens/a.eth");
    assert_eq!(abis[0].abi, "./a.graphql");
    assert_eq!(abis[1].uri, "wrap://ens/b.eth");
    assert_eq!(abis[1].abi, "./b.graphql");
    let extensions = migrated.extensions.unwrap();
    assert_eq!(extensions.build, Some("./polywrap.build.yaml".to_string()));
    assert_eq!(extensions.deploy, None);
    assert_eq!(extensions.meta, None);
    assert_eq!(extensions.infra, None);
}

#[test]
fn migrate_without_extensions_or_redirects() {
    let mut m = manifest_010("0.1.0");
    m.build = None;
    m.import_redirects = None;
    let migrated = migrate(m);
    assert!(migrated.extensions.is_none());
    assert!(migrated.source.import_abis.is_none());
}

#[test]
fn get_migrators_lists_the_010_to_020_migrator_twice() {
    let migrators = get_migrators();
    assert_eq!(migrators.len(), 2);
    for m in &migrators {
        assert_eq!(m.from, "0.1.0");
        assert_eq!(m.to, "0.2.0");
        assert!(m.migrate == MigrationKind::From010To020);
    }
}

#[test]
fn shortest_path_with_known_migrators() {
    let migrators = get_migrators();
    let path = find_shortest_migration_path(&migrators, "0.1.0", "0.2.0").unwrap();
    assert_eq!(path.len(), 1);
    assert_eq!(path[0].from, "0.1.0");
    assert_eq!(path[0].to, "0.2.0");
    assert_eq!(find_shortest_migration_path(&migrators, "0.2.0", "0.2.0").unwrap().len(), 0);
    assert!(find_shortest_migration_path(&migrators, "0.2.0", "0.1.0").is_none());
    assert!(find_shortest_migration_path(&migrators, "0.1.0", "0.3.0").is_none());
}

#[test]
fn shortest_path_prefers_fewer_steps() {
    let migrators = vec![
        migrator("a", "b"),
        migrator("b", "c"),
        migrator("c", "d"),
        migrator("b", "d"),
        migrator("x", "y"),
    ];
    let path = find_shortest_migration_path(&migrators, "a", "d").unwrap();
    assert_eq!(path.len(), 3 - 1);
    assert_eq!(path[0].from, "a");
    assert_eq!(path[0].to, "b");
    assert_eq!(path[1].from, "b");
    assert_eq!(path[1].to, "d");
    let path = find_shortest_migration_path(&migrators, "a", "c").unwrap();
    assert_eq!(path.len(), 2);
    assert!(find_shortest_migration_path(&migrators, "d", "a").is_none());
    assert!(find_shortest_migration_path(&migrators, "a", "y").is_none());
}

#[test]
fn shortest_path_survives_cycles() {
    let migrators = vec![migrator("a", "b"), migrator("b", "a"), migrator("b", "c")];
    let path = find_shortest_migration_path(&migrators, "a", "c").unwrap();
    assert_eq!(path.len(), 2);
    assert!(find_shortest_migration_path(&migrators, "c", "a").is_none());
    assert!(find_shortest_migration_path(&vec![], "a", "b").is_none());
}

#[test]
fn migrate_polywrap_manifest_brings_010_to_latest() {
    let migrated = migrate_polywrap_manifest(
        AnyManifest::PolywrapManifest010(manifest_010("0.1.0")),
        LATEST_MANIFEST_FORMAT.to_string(),
    );
    assert_eq!(migrated.format, "0.2.0");
    assert_eq!(migrated.project.name, "test-wrap");
    let same = migrate_polywrap_manifest(
        AnyManifest::PolywrapManifest020(manifest_020("0.2.0")),
        "0.2.0".to_string(),
    );
    assert_eq!(same.format, "0.2.0");
    assert_eq!(same.source.schema, "./schema.graphql");
}

#[test]
fn can_migrate_to_tells_reachable_formats() {
    let m010 = AnyManifest::PolywrapManifest010(manifest_010("0.1.0"));
    assert!(can_migrate_to(&m010, "0.2.0"));
    assert!(!can_migrate_to(&m010, "0.1.0"));
    assert!(!can_migrate_to(&m010, "0.3.0"));
    let m020 = AnyManifest::PolywrapManifest020(manifest_020("0.2.0"));
    assert!(can_migrate_to(&m020, "0.2.0"));
    assert!(!can_migrate_to(&m020, "0.1.0"));
}

#[test]
fn latest_manifest_migrates_older_and_keeps_latest() {
    let m = try_latest_manifest(AnyManifest::PolywrapManifest010(manifest_010("0.1.0")));
    let m = m.ok().unwrap().ok().unwrap();
    assert_eq!(m.format, "0.2.0");
    assert_eq!(m.project.type_, "wasm/rust");
    let m = try_latest_manifest(AnyManifest::PolywrapManifest020(manifest_020("0.2.0")));
    assert_eq!(m.ok().unwrap().ok().unwrap().format, "0.2.0");
}

#[test]
fn latest_manifest_reports_semver_errors() {
    let res = try_latest_manifest(AnyManifest::PolywrapManifest020(manifest_020("0.2")));
    match res {
        Ok(Err(Error::SemverError(msg))) => assert!(!msg.is_empty()),
        _ => panic!("expected a semver error"),
    }
    let res = try_latest_manifest(AnyManifest::PolywrapManifest020(manifest_020("x")));
    assert!(matches!(res, Ok(Err(Error::SemverError(_)))));
}

#[test]
fn try_latest_manifest_refuses_newer_formats_and_missing_paths() {
    let res = try_latest_manifest(AnyManifest::PolywrapManifest020(manifest_020("0.3.0")));
    assert_eq!(res.err(), Some(LatestRefusal::NewerFormat));
    let res = try_latest_manifest(AnyManifest::PolywrapManifest010(manifest_010("0.0.1")));
    assert_eq!(res.err(), Some(LatestRefusal::NoMigrationPath));
    let res = try_latest_manifest(AnyManifest::PolywrapManifest020(manifest_020("0.1.0")));
    assert_eq!(res.err(), Some(LatestRefusal::NoMigrationPath));
    let res = try_latest_manifest(AnyManifest::PolywrapManifest010(manifest_010("0.2.0")));
    assert!(matches!(res, Ok(Err(_))));
}

#[test]
fn upgrade_manifest_by_order() {
    let m = upgrade_manifest(AnyManifest::PolywrapManifest010(manifest_010("0.1.0")), -1);
    assert_eq!(m.ok().unwrap().format, "0.2.0");
    let m = upgrade_manifest(AnyManifest::PolywrapManifest020(manifest_020("0.2.0")), 0);
    assert_eq!(m.ok().unwrap().format, "0.2.0");
    let m = upgrade_manifest(AnyManifest::PolywrapManifest010(manifest_010("0.2.0")), 0);
    assert!(m.is_err());
}

#[test]
fn any_manifest_format_and_latest() {
    let m = AnyManifest::PolywrapManifest010(manifest_010("0.1.0"));
    assert_eq!(m.format(), "0.1.0");
    assert!(m.get_latest().is_err());
    let m = AnyManifest::PolywrapManifest020(manifest_020("0.2.0"));
    assert_eq!(m.format(), "0.2.0");
    assert_eq!(m.get_latest().ok().unwrap().format, "0.2.0");
}

#[test]
fn migrator_apply_and_duplicate() {
    let m = migrator("0.1.0", "0.2.0");
    let copy = m.duplicate();
    assert_eq!(copy.from, "0.1.0");
    assert_eq!(copy.to, "0.2.0");
    match m.apply(AnyManifest::PolywrapManifest010(manifest_010("0.1.0"))) {
        AnyManifest::PolywrapManifest020(r) => assert_eq!(r.format, "0.2.0"),
        _ => panic!("expected a 0.2.0 manifest"),
    }
}

#[test]
fn str_eq_compares_characters() {
    assert!(str_eq("abc", "abc"));
    assert!(!str_eq("abc", "abd"));
    assert!(!str_eq("abc", "ab"));
    assert!(str_eq("", ""));
}

#[test]
fn manifest_error_messages() {
    assert_eq!(Error::DeserializeError("x".to_string()).to_string(), "`x`");
    assert_eq!(Error::ValidationError("x".to_string()).to_string(), "`x`");
    assert_eq!(Error::JSONError("x".to_string()).to_string(), "Serde JSON error: `x`");
    assert_eq!(
        Error::FromJSONError("x".to_string()).to_string(),
        "From JSON conversion error: `x`"
    );
    assert_eq!(Error::JSONSchemaError("x".to_string()).to_string(), "JSONSchema error: `x`");
    assert_eq!(
        Error::MsgpackDecodeError("x".to_string()).to_string(),
        "Msgpack decode error: `x`"
    );
    assert_eq!(Error::SemverError("x".to_string()).to_string(), "Semver error: `x`");
}

#[test]
fn version_suffix_drops_separators() {
    assert_eq!(generate::version_suffix("0.1.0"), "010");
    assert_eq!(generate::version_suffix("0_2_0"), "020");
    assert_eq!(generate::version_suffix("1.2_3"), "12_3");
    assert_eq!(generate::version_suffix("latest"), "latest");
    assert_eq!(
        generate::Error::SchemaFetch("timeout".to_string()).to_string(),
        "Error fetching Wrap jsonschemas through HTTP: `timeout`"
    );
}

#[test]
fn compare_semver_by_precedence() {
    assert_eq!(compare_semver("1.0.0", "2.0.0"), Ok(-1));
    assert_eq!(compare_semver("2.0.0", "1.0.0"), Ok(1));
    assert_eq!(compare_semver("0.2.0", "0.2.0"), Ok(0));
    assert_eq!(compare_semver("1.0.0-alpha", "1.0.0"), Ok(-1));
    let first = compare_semver("x", "y").unwrap_err();
    assert_eq!(first, semver::Version::parse("x").unwrap_err().to_string());
    let second = compare_semver("1.0.0", "1.0").unwrap_err();
    assert_eq!(second, semver::Version::parse("1.0").unwrap_err().to_string());
}

#[test]
fn latest_manifest_reads_reachable_manifests() {
    let m = latest_manifest(AnyManifest::PolywrapManifest010(manifest_010("0.1.0"))).ok().unwrap();
    assert_eq!(m.format, "0.2.0");
    assert_eq!(m.source.import_abis.unwrap().len(), 2);
    let m = latest_manifest(AnyManifest::PolywrapManifest020(manifest_020("0.2.0"))).ok().unwrap();
    assert_eq!(m.project.name, "test-wrap");
    match latest_manifest(AnyManifest::PolywrapManifest020(manifest_020("not-semver"))) {
        Err(Error::SemverError(msg)) => {
            assert_eq!(msg, semver::Version::parse("not-semver").unwrap_err().to_string())
        }
        _ => panic!("expected a semver error"),
    }
}
