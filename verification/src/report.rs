//! The data consumed by the presenter: packages, advisory metadata,
//! vulnerabilities, warnings, and the report snapshot for one audited
//! lockfile, together with the canonical-URL selection rule.

use vstd::prelude::*;
use crate::config::WarningKind;

verus! {

/// A resolved package; name plus version is its identity.
#[derive(Debug)]
pub struct Package {
    pub name: String,
    pub version: String,
}

/// Mathematical identity of a package: its name and version text.
pub ghost struct PackageModel {
    pub name: Seq<char>,
    pub version: Seq<char>,
}

impl View for Package {
    type V = PackageModel;

    open spec fn view(&self) -> PackageModel {
        PackageModel { name: self.name@, version: self.version@ }
    }
}

impl Package {
    /// Copies the package identity.
    pub fn duplicate(&self) -> (r: Package)
        ensures
            r@ == self@,
    {
        Package { name: self.name.clone(), version: self.version.clone() }
    }

    /// Compares two packages by name-plus-version identity.
    pub fn same_key(&self, other: &Package) -> (r: bool)
        ensures
            r == (self@ == other@),
    {
        let r = self.name == other.name && self.version == other.version;
        proof {
            if self.name@ == other.name@ && self.version@ == other.version@ {
                assert(self@ == other@);
            }
        }
        r
    }
}

/// The license an advisory is published under; only the CC-BY-4.0 license
/// changes how its canonical URL is selected.
#[derive(Clone, Copy, PartialEq, Eq, Structural, Debug)]
pub enum License {
    CcBy40,
    Other,
}

/// Which collection an advisory belongs to.
#[derive(Clone, Copy, PartialEq, Eq, Structural, Debug)]
pub enum Collection {
    /// Advisories about crates published through the package registry.
    Crates,
    /// Advisories about the toolchain itself.
    Rust,
}

/// Advisory metadata as shown in a report: identity, descriptive text, and
/// the two URL candidates the canonical-URL rule selects between.
pub struct Metadata {
    /// Unique advisory identifier.
    pub id: String,
    pub title: String,
    pub date: String,
    /// Name of the package the advisory is about.
    pub package: String,
    pub license: License,
    /// Explicit URL given by the advisory itself.
    pub url: Option<String>,
    /// URL derived from the advisory identifier, when one can be derived.
    pub id_url: Option<String>,
    /// Severity display text, when the advisory carries a severity score.
    pub severity: Option<String>,
    /// Collection the advisory belongs to; required when routing a whole
    /// database, but optional in the data as loaded.
    pub collection: Option<Collection>,
}

/// The canonical URL for an advisory. For a CC-BY-4.0 advisory the explicit
/// URL is preferred, falling back to the identifier-derived URL; for every
/// other license the identifier-derived URL is preferred, falling back to
/// the explicit one.
pub open spec fn spec_canonical_url(
    license: License,
    url: Option<Seq<char>>,
    id_url: Option<Seq<char>>,
) -> Option<Seq<char>> {
    if license == License::CcBy40 {
        if url is Some {
            url
        } else {
            id_url
        }
    } else {
        if id_url is Some {
            id_url
        } else {
            url
        }
    }
}

/// View of an optional string.
pub open spec fn opt_view(o: Option<&String>) -> Option<Seq<char>> {
    match o {
        Some(s) => Some(s@),
        None => None,
    }
}

/// View of an owned optional string.
pub open spec fn opt_string_view(o: Option<String>) -> Option<Seq<char>> {
    match o {
        Some(s) => Some(s@),
        None => None,
    }
}

impl Metadata {
    /// View of the explicit URL field.
    pub open spec fn spec_url(&self) -> Option<Seq<char>> {
        opt_string_view(self.url)
    }

    /// View of the identifier-derived URL field.
    pub open spec fn spec_id_url(&self) -> Option<Seq<char>> {
        opt_string_view(self.id_url)
    }

    /// The canonical URL selected for this advisory.
    pub open spec fn spec_canonical(&self) -> Option<Seq<char>> {
        spec_canonical_url(self.license, self.spec_url(), self.spec_id_url())
    }

    /// Selects the canonical URL under the license priority rule.
    pub fn canonical_url(&self) -> (r: Option<&String>)
        ensures
            opt_view(r) == self.spec_canonical(),
    {
        if self.license == License::CcBy40 {
            match &self.url {
                Some(u) => Some(u),
                None => match &self.id_url {
                    Some(u) => Some(u),
                    None => None,
                },
            }
        } else {
            match &self.id_url {
                Some(u) => Some(u),
                None => match &self.url {
                    Some(u) => Some(u),
                    None => None,
                },
            }
        }
    }
}

/// An advisory bound to one affected package found in the lockfile, with the
/// set of patched versions that would resolve it (possibly empty).
pub struct Vulnerability {
    pub advisory: Metadata,
    pub package: Package,
    /// Versions that contain a fix; empty when no fixed upgrade exists.
    pub patched: Vec<String>,
}

/// A non-fatal finding: a warning kind, the affected package, and the
/// advisory behind it when there is one.
pub struct Warning {
    pub kind: WarningKind,
    pub package: Package,
    pub advisory: Option<Metadata>,
}

/// All warnings of one kind, as grouped in a report.
pub struct WarningGroup {
    pub kind: WarningKind,
    pub warnings: Vec<Warning>,
}

/// The vulnerability section of a report: list plus summary counters.
pub struct VulnerabilityInfo {
    /// Whether any vulnerability was found.
    pub found: bool,
    /// Number of vulnerabilities found.
    pub count: u64,
    pub list: Vec<Vulnerability>,
}

/// An immutable snapshot of the findings for one audited lockfile.
pub struct Report {
    pub vulnerabilities: VulnerabilityInfo,
    pub warnings: Vec<WarningGroup>,
}

impl Report {
    /// The summary counters agree with the vulnerability list they summarize.
    pub open spec fn wf(&self) -> bool {
        &&& self.vulnerabilities.count == self.vulnerabilities.list@.len()
        &&& self.vulnerabilities.found == (self.vulnerabilities.list@.len() > 0)
    }
}

} // verus!
