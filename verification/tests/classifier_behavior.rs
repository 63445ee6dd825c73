use audit_core::osv::OsvCmd;
use audit_core::report::{Collection, License, Metadata};
use audit_core::versions::{
    classify_database, classify_versions, Advisory, CrateVersions, VersionError,
};

fn range(patched: &[&str]) -> rustsec::advisory::Versions {
    let reqs = patched
        .iter()
        .map(|s| rustsec::VersionReq::parse(s).unwrap())
        .collect();
    rustsec::advisory::Versions::new(reqs, vec![]).unwrap()
}

fn advisory(id: &str, package: &str, collection: Option<Collection>) -> Advisory {
    Advisory {
        metadata: Metadata {
            id: id.to_string(),
            title: "Example".to_string(),
            date: "2023-01-01".to_string(),
            package: package.to_string(),
            license: License::Other,
            url: None,
            id_url: None,
            severity: None,
            collection,
        },
        versions: range(&[">=1.0.0"]),
    }
}

fn published(name: &str, versions: &[&str]) -> CrateVersions {
    CrateVersions {
        name: name.to_string(),
        versions: versions.iter().map(|s| s.to_string()).collect(),
    }
}

#[test]
fn classify_partitions_versions_against_the_range() {
    // Everything before 1.0.0 is vulnerable; 1.0.0 and later are patched.
    let ranges = range(&[">=1.0.0"]);
    let versions = vec!["0.9.0".to_string(), "1.0.0".to_string()];
    let records = classify_versions(&ranges, &versions).unwrap();
    assert_eq!(records.len(), 2);
    assert_eq!(records[0].version, "0.9.0");
    assert!(records[0].vulnerable);
    assert_eq!(records[0].status_text(), "vulnerable");
    assert_eq!(records[1].version, "1.0.0");
    assert!(!records[1].vulnerable);
    assert_eq!(records[1].status_text(), "OK");
}

#[test]
fn classify_is_restartable() {
    let ranges = range(&[">=1.0.0"]);
    let versions = vec!["0.9.0".to_string(), "1.0.0".to_string()];
    let first = classify_versions(&ranges, &versions).unwrap();
    let second = classify_versions(&ranges, &versions).unwrap();
    assert_eq!(first.len(), second.len());
    for (a, b) in first.iter().zip(second.iter()) {
        assert_eq!(a.version, b.version);
        assert_eq!(a.vulnerable, b.vulnerable);
    }
}

#[test]
fn unparsable_version_is_fatal() {
    let ranges = range(&[">=1.0.0"]);
    let versions = vec!["0.9.0".to_string(), "not-a-version".to_string()];
    match classify_versions(&ranges, &versions) {
        Err(VersionError::UnparsableVersion { version }) => {
            assert_eq!(version, "not-a-version");
        }
        _ => panic!("expected a version parse failure"),
    }
}

#[test]
fn database_visits_each_crate_advisory_once() {
    let advisories = vec![
        advisory("RUSTSEC-0001", "demo", Some(Collection::Crates)),
        advisory("RUSTSEC-0002", "other", Some(Collection::Crates)),
    ];
    let index = vec![
        published("demo", &["0.9.0", "1.0.0"]),
        published("other", &["0.5.0"]),
    ];
    let classifications = classify_database(&advisories, &index).unwrap();
    assert_eq!(classifications.len(), 2);
    assert_eq!(classifications[0].id, "RUSTSEC-0001");
    assert_eq!(classifications[0].package, "demo");
    assert_eq!(classifications[0].records.len(), 2);
    assert_eq!(classifications[0].records[0].version, "0.9.0");
    assert!(classifications[0].records[0].vulnerable);
    assert_eq!(classifications[0].records[1].version, "1.0.0");
    assert!(!classifications[0].records[1].vulnerable);
    assert_eq!(classifications[1].id, "RUSTSEC-0002");
    assert_eq!(classifications[1].records.len(), 1);
}

#[test]
fn toolchain_advisories_are_skipped_without_error() {
    let advisories = vec![
        advisory("RUSTSEC-0003", "rust", Some(Collection::Rust)),
        advisory("RUSTSEC-0004", "demo", Some(Collection::Crates)),
    ];
    let index = vec![published("demo", &["0.9.0"])];
    let classifications = classify_database(&advisories, &index).unwrap();
    assert_eq!(classifications.len(), 1);
    assert_eq!(classifications[0].id, "RUSTSEC-0004");
}

#[test]
fn missing_collection_is_fatal() {
    let advisories = vec![advisory("RUSTSEC-0005", "demo", None)];
    let index = vec![published("demo", &["0.9.0"])];
    match classify_database(&advisories, &index) {
        Err(VersionError::MissingCollection { id }) => assert_eq!(id, "RUSTSEC-0005"),
        _ => panic!("expected a missing-collection error"),
    }
}

#[test]
fn crate_absent_from_index_is_fatal() {
    let advisories = vec![advisory("RUSTSEC-0006", "nowhere", Some(Collection::Crates))];
    let index = vec![published("demo", &["0.9.0"])];
    match classify_database(&advisories, &index) {
        Err(VersionError::CrateNotFound { package }) => assert_eq!(package, "nowhere"),
        _ => panic!("expected a crate-not-found error"),
    }
}

#[test]
fn unaffected_ranges_are_not_vulnerable() {
    let reqs = vec![rustsec::VersionReq::parse(">=2.0.0").unwrap()];
    let unaffected = vec![rustsec::VersionReq::parse("<0.5.0").unwrap()];
    let ranges = rustsec::advisory::Versions::new(reqs, unaffected).unwrap();
    let versions = vec!["0.4.0".to_string(), "1.0.0".to_string(), "2.0.0".to_string()];
    let records = classify_versions(&ranges, &versions).unwrap();
    assert!(!records[0].vulnerable);
    assert!(records[1].vulnerable);
    assert!(!records[2].vulnerable);
}

#[test]
fn osv_output_directory_defaults_to_current() {
    let default_cmd = OsvCmd { repo_path: None, path: None };
    assert_eq!(default_cmd.output_dir(), ".");
    let explicit = OsvCmd { repo_path: None, path: Some("out/osv".to_string()) };
    assert_eq!(explicit.output_dir(), "out/osv");
}
