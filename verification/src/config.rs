//! Output configuration and the warning-deny policy classifier: the mapping
//! from configured deny selectors to the concrete warning kinds that are
//! promoted to denied failures.

use vstd::prelude::*;

verus! {

/// How the report is emitted: human-readable terminal text or a single
/// machine-readable serialization of the report.
#[derive(Clone, Copy, PartialEq, Eq, Structural, Debug)]
pub enum OutputFormat {
    Terminal,
    Json,
}

/// The kind of a non-fatal finding.
#[derive(Clone, Copy, PartialEq, Eq, Structural, Debug)]
pub enum WarningKind {
    /// An informational notice about a package.
    Notice,
    /// The package is no longer maintained.
    Unmaintained,
    /// The package has a soundness hole.
    Unsound,
    /// The package version was yanked from the registry.
    Yanked,
}

/// A configured deny selector: a category of findings promoted to failure.
#[derive(Clone, Copy, PartialEq, Eq, Structural, Debug)]
pub enum DenyOption {
    /// Deny every warning kind.
    Warnings,
    Unmaintained,
    Unsound,
    Yanked,
}

/// Whether a deny selector promotes a given warning kind to a denied failure.
pub open spec fn spec_denies(opt: DenyOption, kind: WarningKind) -> bool {
    match opt {
        DenyOption::Warnings => true,
        DenyOption::Unmaintained => kind == WarningKind::Unmaintained,
        DenyOption::Unsound => kind == WarningKind::Unsound,
        DenyOption::Yanked => kind == WarningKind::Yanked,
    }
}

/// Whether a configured set of deny selectors promotes a warning kind.
pub open spec fn spec_denied_kind(deny: Seq<DenyOption>, kind: WarningKind) -> bool {
    exists|i: int| 0 <= i < deny.len() && spec_denies(deny[i], kind)
}

/// Immutable per-run output options.
pub struct OutputConfig {
    /// Selected output format.
    pub format: OutputFormat,
    /// Configured deny selectors.
    pub deny: Vec<DenyOption>,
    /// Whether to render dependency trees; absent means enabled.
    pub show_tree: Option<bool>,
    /// Suppress informational output.
    pub quiet: bool,
}

impl OutputConfig {
    /// Whether dependency trees are rendered: enabled unless switched off.
    pub open spec fn spec_show_tree(&self) -> bool {
        match self.show_tree {
            Some(b) => b,
            None => true,
        }
    }

    /// Whether informational output is suppressed.
    pub fn is_quiet(&self) -> (r: bool)
        ensures
            r == self.quiet,
    {
        self.quiet
    }

    /// Whether the broad deny-all-warnings selector is configured.
    pub open spec fn spec_deny_warnings(&self) -> bool {
        self.deny@.contains(DenyOption::Warnings)
    }

    /// Tests for the broad deny-all-warnings selector.
    pub fn denies_all_warnings(&self) -> (r: bool)
        ensures
            r == self.spec_deny_warnings(),
    {
        let mut i: usize = 0;
        while i < self.deny.len()
            invariant
                0 <= i <= self.deny@.len(),
                forall|j: int| 0 <= j < i ==> self.deny@[j] != DenyOption::Warnings,
            decreases self.deny@.len() - i,
        {
            if self.deny[i] == DenyOption::Warnings {
                return true;
            }
            i += 1;
        }
        false
    }
}

} // verus!
