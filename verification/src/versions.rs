//! The affected-version classifier: partitions a crate's published versions
//! into vulnerable and unaffected sets against an advisory's version-range
//! predicate, and reports per-version status for a whole advisory database.
//!
//! The range predicate itself and semantic-version parsing are external
//! collaborators; the routing, ordering and error rules around them are
//! verified here.

use vstd::prelude::*;
use crate::report::{Collection, Metadata};

verus! {

/// An advisory's version-range predicate, as loaded from the advisory
/// database. Opaque here: only its membership test is consulted.
#[verifier::external_type_specification]
#[verifier::external_body]
pub struct ExVersions(rustsec::advisory::Versions);

/// A parsed semantic version. Opaque here: values are carried from the
/// parser to the range predicate untouched.
#[verifier::external_type_specification]
#[verifier::external_body]
pub struct ExVersion(rustsec::Version);

/// Whether a version text parses as a semantic version; parsing success
/// depends on the text alone.
pub uninterp spec fn semver_ok(s: Seq<char>) -> bool;

/// Relies on rustsec::Version::parse: parses semantic-version text, and
/// succeeds or fails depending on that text alone.
#[verifier::external_body]
fn parse_version(s: &str) -> (r: Option<rustsec::Version>)
    ensures
        r is Some == semver_ok(s@),
{
    rustsec::Version::parse(s).ok()
}

/// Relies on rustsec::advisory::Versions::is_vulnerable: whether a parsed
/// version falls in the advisory's affected ranges. Nothing is assumed of
/// the answer; callers record it as it came.
#[verifier::external_body]
fn range_is_vulnerable(ranges: &rustsec::advisory::Versions, version: &rustsec::Version) -> bool {
    ranges.is_vulnerable(version)
}

/// One advisory as loaded from the database: its metadata and its
/// version-range predicate.
pub struct Advisory {
    pub metadata: Metadata,
    pub versions: rustsec::advisory::Versions,
}

/// Per-version classification: the published version text and whether the
/// advisory's ranges mark it vulnerable.
pub struct VersionRecord {
    pub version: String,
    pub vulnerable: bool,
}

impl VersionRecord {
    /// The status word shown beside the version.
    pub fn status_text(&self) -> (r: &'static str)
        ensures
            r@ == if self.vulnerable {
                "vulnerable"@
            } else {
                "OK"@
            },
    {
        if self.vulnerable {
            "vulnerable"
        } else {
            "OK"
        }
    }
}

/// The published versions of one crate, as fetched from the package index.
pub struct CrateVersions {
    pub name: String,
    pub versions: Vec<String>,
}

/// Classification of one advisory: one record per published version of its
/// target crate.
pub struct AdvisoryClassification {
    pub id: String,
    pub package: String,
    pub records: Vec<VersionRecord>,
}

/// Why a classification run failed. No failure is recovered from: each one
/// would otherwise silently under- or misreport vulnerable versions.
#[derive(Debug)]
pub enum VersionError {
    /// An advisory carries no collection category, which is required to
    /// route whole-database processing.
    MissingCollection { id: String },
    /// The advisory's target crate is absent from the package index.
    CrateNotFound { package: String },
    /// A published version of the target crate does not parse.
    UnparsableVersion { version: String },
}

/// Position of the first version text that does not parse, scanning from `i`.
pub open spec fn spec_first_bad_version(vs: Seq<String>, i: int) -> Option<int>
    decreases vs.len() - i,
{
    if i < 0 || i >= vs.len() {
        None
    } else if !semver_ok(vs[i]@) {
        Some(i)
    } else {
        spec_first_bad_version(vs, i + 1)
    }
}

/// Whether an advisory targets crates published through the registry.
pub open spec fn is_crates_advisory(a: Advisory) -> bool {
    a.metadata.collection == Some(Collection::Crates)
}

/// Position of the first index entry for the named crate, scanning from `i`.
pub open spec fn spec_index_lookup(index: Seq<CrateVersions>, name: Seq<char>, i: int) -> Option<
    int,
>
    decreases index.len() - i,
{
    if i < 0 || i >= index.len() {
        None
    } else if index[i].name@ == name {
        Some(i)
    } else {
        spec_index_lookup(index, name, i + 1)
    }
}

/// Whether processing this advisory against the index fails: its collection
/// is absent, or it targets crates and its crate is missing from the index
/// or has a version that does not parse. Toolchain advisories never fail:
/// they are skipped entirely.
pub open spec fn spec_failure(a: Advisory, index: Seq<CrateVersions>) -> bool {
    ||| a.metadata.collection is None
    ||| (is_crates_advisory(a) && match spec_index_lookup(index, a.metadata.package@, 0) {
        Some(ci) => spec_first_bad_version(index[ci].versions@, 0) is Some,
        None => true,
    })
}

/// Position of the first advisory whose processing fails, scanning from `i`.
pub open spec fn spec_first_failing(advs: Seq<Advisory>, index: Seq<CrateVersions>, i: int) -> Option<int>
    decreases advs.len() - i,
{
    if i < 0 || i >= advs.len() {
        None
    } else if spec_failure(advs[i], index) {
        Some(i)
    } else {
        spec_first_failing(advs, index, i + 1)
    }
}

/// The crate-collection advisories among the first `i`, in order.
pub open spec fn spec_crates_prefix(advs: Seq<Advisory>, i: int) -> Seq<Advisory>
    decreases i,
{
    if i <= 0 {
        Seq::empty()
    } else {
        spec_crates_prefix(advs, i - 1) + if is_crates_advisory(advs[i - 1]) {
            seq![advs[i - 1]]
        } else {
            Seq::empty()
        }
    }
}

/// The crate-collection advisories of a database, in order; toolchain
/// advisories are left out.
pub open spec fn spec_crate_advisories(advs: Seq<Advisory>) -> Seq<Advisory> {
    spec_crates_prefix(advs, advs.len() as int)
}

/// Whole-database classification only ever selects crate-collection
/// advisories; advisories of other collections are skipped, not errors.
pub proof fn lemma_crate_advisories_only_crates(advs: Seq<Advisory>, i: int)
    requires
        0 <= i <= advs.len(),
    ensures
        forall|j: int|
            0 <= j < spec_crates_prefix(advs, i).len() ==> is_crates_advisory(
                #[trigger] spec_crates_prefix(advs, i)[j],
            ),
    decreases i,
{
    if i > 0 {
        lemma_crate_advisories_only_crates(advs, i - 1);
        let pre = spec_crates_prefix(advs, i - 1);
        let cur = spec_crates_prefix(advs, i);
        assert forall|j: int| 0 <= j < cur.len() implies is_crates_advisory(cur[j]) by {
            if j < pre.len() {
                assert(cur[j] == pre[j]);
            } else {
                assert(is_crates_advisory(advs[i - 1]));
                assert(cur[j] == advs[i - 1]);
            }
        }
    }
}

/// Whether one classification is the correct result for one advisory.
pub open spec fn classification_matches(
    c: AdvisoryClassification,
    a: Advisory,
    index: Seq<CrateVersions>,
) -> bool {
    &&& c.id@ == a.metadata.id@
    &&& c.package@ == a.metadata.package@
    &&& match spec_index_lookup(index, a.metadata.package@, 0) {
        Some(ci) => {
            &&& c.records@.len() == index[ci].versions@.len()
            &&& forall|j: int|
                0 <= j < c.records@.len() ==> #[trigger] c.records@[j].version@
                    == index[ci].versions@[j]@
        },
        None => false,
    }
}

/// Whether an error value describes the failure of one advisory.
pub open spec fn error_matches(e: VersionError, a: Advisory, index: Seq<CrateVersions>) -> bool {
    match e {
        VersionError::MissingCollection { id } => {
            &&& a.metadata.collection is None
            &&& id@ == a.metadata.id@
        },
        VersionError::CrateNotFound { package } => {
            &&& is_crates_advisory(a)
            &&& spec_index_lookup(index, a.metadata.package@, 0) is None
            &&& package@ == a.metadata.package@
        },
        VersionError::UnparsableVersion { version } => {
            &&& is_crates_advisory(a)
            &&& match spec_index_lookup(index, a.metadata.package@, 0) {
                Some(ci) => match spec_first_bad_version(index[ci].versions@, 0) {
                    Some(j) => version@ == index[ci].versions@[j]@,
                    None => false,
                },
                None => false,
            }
        },
    }
}

/// Classifies every published version of one crate against one advisory's
/// ranges: restartable, no state retained, one record per version in input
/// order. Fails on the first version text that does not parse.
pub fn classify_versions(
    ranges: &rustsec::advisory::Versions,
    published: &Vec<String>,
) -> (r: Result<Vec<VersionRecord>, VersionError>)
    ensures
        r is Ok == spec_first_bad_version(published@, 0) is None,
        r matches Ok(v) ==> {
            &&& v@.len() == published@.len()
            &&& forall|i: int|
                0 <= i < v@.len() ==> #[trigger] v@[i].version@ == published@[i]@
        },
        r matches Err(e) ==> (match spec_first_bad_version(published@, 0) {
            Some(j) => e matches VersionError::UnparsableVersion { version } && version@
                == published@[j]@,
            None => false,
        }),
{
    let mut records: Vec<VersionRecord> = Vec::new();
    let mut i: usize = 0;
    while i < published.len()
        invariant
            0 <= i <= published@.len(),
            spec_first_bad_version(published@, 0) == spec_first_bad_version(published@, i as int),
            records@.len() == i,
            forall|j: int| 0 <= j < i ==> #[trigger] records@[j].version@ == published@[j]@,
        decreases published@.len() - i,
    {
        match parse_version(published[i].as_str()) {
            Some(parsed) => {
                let vulnerable = range_is_vulnerable(ranges, &parsed);
                records.push(VersionRecord { version: published[i].clone(), vulnerable });
            },
            None => {
                return Err(VersionError::UnparsableVersion { version: published[i].clone() });
            },
        }
        i += 1;
    }
    Ok(records)
}

/// Looks a crate up in the fetched index by name.
fn index_lookup(index: &Vec<CrateVersions>, name: &String) -> (r: Option<usize>)
    ensures
        match r {
            Some(i) => i < index@.len() && spec_index_lookup(index@, name@, 0) == Some(i as int),
            None => spec_index_lookup(index@, name@, 0) is None,
        },
{
    let mut i: usize = 0;
    while i < index.len()
        invariant
            0 <= i <= index@.len(),
            spec_index_lookup(index@, name@, 0) == spec_index_lookup(index@, name@, i as int),
        decreases index@.len() - i,
    {
        if index[i].name == *name {
            return Some(i);
        }
        i += 1;
    }
    None
}

/// Classifies a whole advisory database against fetched per-crate version
/// lists. Every crate-collection advisory is classified exactly once, in
/// database order; advisories of other collections are skipped without an
/// error; an advisory with no collection at all is a fatal error, as are a
/// crate missing from the index and a version text that does not parse.
pub fn classify_database(
    advisories: &Vec<Advisory>,
    index: &Vec<CrateVersions>,
) -> (r: Result<Vec<AdvisoryClassification>, VersionError>)
    ensures
        r is Ok == spec_first_failing(advisories@, index@, 0) is None,
        r matches Ok(v) ==> {
            &&& v@.len() == spec_crate_advisories(advisories@).len()
            &&& forall|i: int|
                0 <= i < v@.len() ==> classification_matches(
                    #[trigger] v@[i],
                    spec_crate_advisories(advisories@)[i],
                    index@,
                )
        },
        r matches Err(e) ==> (match spec_first_failing(advisories@, index@, 0) {
            Some(fi) => error_matches(e, advisories@[fi], index@),
            None => false,
        }),
{
    let mut out: Vec<AdvisoryClassification> = Vec::new();
    let mut i: usize = 0;
    while i < advisories.len()
        invariant
            0 <= i <= advisories@.len(),
            spec_first_failing(advisories@, index@, 0) == spec_first_failing(
                advisories@,
                index@,
                i as int,
            ),
            out@.len() == spec_crates_prefix(advisories@, i as int).len(),
            forall|k: int|
                0 <= k < out@.len() ==> classification_matches(
                    #[trigger] out@[k],
                    spec_crates_prefix(advisories@, i as int)[k],
                    index@,
                ),
        decreases advisories@.len() - i,
    {
        let advisory = &advisories[i];
        let ghost pre = spec_crates_prefix(advisories@, i as int);
        match &advisory.metadata.collection {
            None => {
                return Err(VersionError::MissingCollection { id: advisory.metadata.id.clone() });
            },
            Some(Collection::Rust) => {
                proof {
                    assert(spec_crates_prefix(advisories@, i as int + 1) =~= pre);
                }
            },
            Some(Collection::Crates) => {
                match index_lookup(index, &advisory.metadata.package) {
                    None => {
                        return Err(
                            VersionError::CrateNotFound {
                                package: advisory.metadata.package.clone(),
                            },
                        );
                    },
                    Some(ci) => {
                        match classify_versions(&advisory.versions, &index[ci].versions) {
                            Ok(records) => {
                                out.push(
                                    AdvisoryClassification {
                                        id: advisory.metadata.id.clone(),
                                        package: advisory.metadata.package.clone(),
                                        records,
                                    },
                                );
                                proof {
                                    assert(spec_crates_prefix(advisories@, i as int + 1) =~= pre
                                        + seq![advisories@[i as int]]);
                                }
                            },
                            Err(e) => {
                                return Err(e);
                            },
                        }
                    },
                }
            },
        }
        i += 1;
    }
    Ok(out)
}

} // verus!
