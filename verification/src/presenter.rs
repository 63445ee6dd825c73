//! The report presenter: orchestrates the deny-policy classifier and the
//! dependency-path renderer over a full report, formats the output as a
//! sequence of display lines (or selects machine-readable output), and
//! computes the pass/fail exit status.
//!
//! Whatever causes an error-severity aggregate line here also makes
//! `should_exit_with_failure` true, and the other way round.

use vstd::prelude::*;
use vstd::string::StringExecFns;
use crate::config::{
    DenyOption,
    OutputConfig,
    OutputFormat,
    WarningKind,
    spec_denied_kind,
    spec_denies,
};
use crate::lines::{
    Color,
    Line,
    LineModel,
    Severity,
    has_error_status,
    is_error_status,
    lemma_error_status_concat,
    lines_view,
};
use crate::report::{
    Metadata,
    Package,
    PackageModel,
    Report,
    Vulnerability,
    Warning,
    WarningGroup,
    opt_string_view,
};
use crate::text::{spec_dec, u64_to_dec};
use crate::tree::DependencyTree;

verus! {

/// Report output: either the request to serialize the report verbatim, or
/// human-readable display lines.
pub enum ReportOutput {
    /// The caller serializes the full report, byte-for-byte determined by
    /// the report itself; no human formatting, dedup or tree rendering.
    MachineReadable,
    /// Human-readable display lines.
    Human(Vec<Line>),
}

/// A fatal inconsistency between the report and the lockfile it was
/// computed from.
#[derive(Debug)]
pub enum PresentError {
    /// A reported package is missing from the dependency graph.
    PackageNotInTree { package: Package },
}

/// Keys of the packages whose dependency paths were already displayed.
pub open spec fn displayed_keys(v: Seq<Package>) -> Seq<PackageModel> {
    v.map_values(|p: Package| p@)
}

/// Vulnerability information presenter.
pub struct Presenter {
    /// Packages already displayed once, so the same dependency tree is never
    /// shown twice in one presenter lifetime.
    pub displayed_packages: Vec<Package>,
    /// The warning kinds promoted to denied failures, derived once from the
    /// configuration.
    pub deny_warning_kinds: Vec<WarningKind>,
    /// Output configuration.
    pub config: OutputConfig,
}

/// Whether one deny selector expands to the given kind.
fn denies(opt: DenyOption, kind: WarningKind) -> (r: bool)
    ensures
        r == spec_denies(opt, kind),
{
    match opt {
        DenyOption::Warnings => true,
        DenyOption::Unmaintained => kind == WarningKind::Unmaintained,
        DenyOption::Unsound => kind == WarningKind::Unsound,
        DenyOption::Yanked => kind == WarningKind::Yanked,
    }
}

/// Whether any configured selector denies the given kind.
fn any_denies(deny: &Vec<DenyOption>, kind: WarningKind) -> (r: bool)
    ensures
        r == spec_denied_kind(deny@, kind),
{
    let mut i: usize = 0;
    while i < deny.len()
        invariant
            0 <= i <= deny@.len(),
            forall|j: int| 0 <= j < i ==> !spec_denies(deny@[j], kind),
        decreases deny@.len() - i,
    {
        if denies(deny[i], kind) {
            return true;
        }
        i += 1;
    }
    false
}

/// Sum of the warning-list lengths over the first `n` groups whose denied
/// status equals `denied`.
pub open spec fn spec_count_upto(
    groups: Seq<WarningGroup>,
    denyset: Seq<WarningKind>,
    denied: bool,
    n: int,
) -> int
    decreases n,
{
    if n <= 0 {
        0
    } else {
        spec_count_upto(groups, denyset, denied, n - 1) + if denyset.contains(groups[n - 1].kind)
            == denied {
            groups[n - 1].warnings@.len() as int
        } else {
            0int
        }
    }
}

/// Number of warnings whose kind the policy denies.
pub open spec fn spec_denied_count(groups: Seq<WarningGroup>, denyset: Seq<WarningKind>) -> int {
    spec_count_upto(groups, denyset, true, groups.len() as int)
}

/// Number of warnings whose kind the policy allows.
pub open spec fn spec_allowed_count(groups: Seq<WarningGroup>, denyset: Seq<WarningKind>) -> int {
    spec_count_upto(groups, denyset, false, groups.len() as int)
}

/// Partial counts are non-negative and grow with the prefix length.
pub proof fn lemma_count_upto_mono(
    groups: Seq<WarningGroup>,
    denyset: Seq<WarningKind>,
    denied: bool,
    m: int,
    n: int,
)
    requires
        m <= n,
    ensures
        0 <= spec_count_upto(groups, denyset, denied, m) <= spec_count_upto(
            groups,
            denyset,
            denied,
            n,
        ),
    decreases n - m,
{
    if m < n {
        lemma_count_upto_mono(groups, denyset, denied, m, n - 1);
    } else {
        lemma_count_upto_nonneg(groups, denyset, denied, m);
    }
}

/// Partial counts are non-negative.
pub proof fn lemma_count_upto_nonneg(
    groups: Seq<WarningGroup>,
    denyset: Seq<WarningKind>,
    denied: bool,
    n: int,
)
    ensures
        0 <= spec_count_upto(groups, denyset, denied, n),
    decreases n,
{
    if n > 0 {
        lemma_count_upto_nonneg(groups, denyset, denied, n - 1);
    }
}

/// The process must exit with failure: a vulnerability was found, or the
/// policy denies at least one reported warning.
pub open spec fn spec_should_fail(report: Report, denyset: Seq<WarningKind>) -> bool {
    report.vulnerabilities.found || spec_denied_count(report.warnings@, denyset) > 0
}

/// Singular or plural noun for a warning count.
pub open spec fn spec_warning_word(count: int) -> Seq<char> {
    if count == 1 {
        "warning"@
    } else {
        "warnings"@
    }
}

/// Aggregate message for found vulnerabilities: singular for one, plural
/// otherwise; names the audited path when one is given.
pub open spec fn spec_vuln_message(count: int, path: Option<Seq<char>>) -> Seq<char> {
    let base = spec_dec(count) + if count == 1 {
        " vulnerability found"@
    } else {
        " vulnerabilities found"@
    };
    match path {
        Some(p) => base + " in "@ + p,
        None => base + "!"@,
    }
}

/// Aggregate message for denied warnings.
pub open spec fn spec_denied_message(count: int, path: Option<Seq<char>>) -> Seq<char> {
    let base = spec_dec(count) + " denied "@ + spec_warning_word(count);
    match path {
        Some(p) => base + " found in "@ + p,
        None => base + " found!"@,
    }
}

/// Aggregate message for allowed warnings.
pub open spec fn spec_allowed_message(count: int, path: Option<Seq<char>>) -> Seq<char> {
    let base = spec_dec(count) + " allowed "@ + spec_warning_word(count);
    match path {
        Some(p) => base + " found in "@ + p,
        None => base + " found"@,
    }
}

/// View of an optional borrowed path argument.
pub open spec fn opt_path_view(path: Option<&String>) -> Option<Seq<char>> {
    match path {
        Some(p) => Some(p@),
        None => None,
    }
}

/// Builds the aggregate message for found vulnerabilities.
fn vuln_message(count: u64, path: Option<&String>) -> (r: String)
    ensures
        r@ == spec_vuln_message(count as int, opt_path_view(path)),
{
    let mut m = u64_to_dec(count);
    if count == 1 {
        m.append(" vulnerability found");
    } else {
        m.append(" vulnerabilities found");
    }
    match path {
        Some(p) => {
            m.append(" in ");
            m.append(p.as_str());
        },
        None => {
            m.append("!");
        },
    }
    m
}

/// Builds the aggregate message for denied or allowed warnings; `denied`
/// picks the wording and whether a bare message ends in an exclamation mark.
fn warning_count_message(count: u64, denied: bool, path: Option<&String>) -> (r: String)
    ensures
        denied ==> r@ == spec_denied_message(count as int, opt_path_view(path)),
        !denied ==> r@ == spec_allowed_message(count as int, opt_path_view(path)),
{
    let mut m = u64_to_dec(count);
    if denied {
        m.append(" denied ");
    } else {
        m.append(" allowed ");
    }
    if count == 1 {
        m.append("warning");
    } else {
        m.append("warnings");
    }
    match path {
        Some(p) => {
            m.append(" found in ");
            m.append(p.as_str());
        },
        None => {
            if denied {
                m.append(" found!");
            } else {
                m.append(" found");
            }
        },
    }
    m
}

impl Presenter {
    /// Creates a presenter: nothing displayed yet, and the denied warning
    /// kinds expanded once from the configured selectors.
    pub fn new(config: &OutputConfig) -> (p: Presenter)
        ensures
            p.displayed_packages@ == Seq::<Package>::empty(),
            forall|k: WarningKind| #[trigger]
                p.deny_warning_kinds@.contains(k) == spec_denied_kind(config.deny@, k),
            p.config.format == config.format,
            p.config.deny@ == config.deny@,
            p.config.show_tree == config.show_tree,
            p.config.quiet == config.quiet,
    {
        let mut kinds: Vec<WarningKind> = Vec::new();
        let deny_notice = any_denies(&config.deny, WarningKind::Notice);
        let deny_unmaintained = any_denies(&config.deny, WarningKind::Unmaintained);
        let deny_unsound = any_denies(&config.deny, WarningKind::Unsound);
        let deny_yanked = any_denies(&config.deny, WarningKind::Yanked);
        if deny_notice {
            kinds.push(WarningKind::Notice);
        }
        if deny_unmaintained {
            kinds.push(WarningKind::Unmaintained);
        }
        if deny_unsound {
            kinds.push(WarningKind::Unsound);
        }
        if deny_yanked {
            kinds.push(WarningKind::Yanked);
        }
        proof {
            let pos_unmaintained: int = if deny_notice { 1 } else { 0 };
            let pos_unsound: int = pos_unmaintained + if deny_unmaintained { 1int } else { 0 };
            let pos_yanked: int = pos_unsound + if deny_unsound { 1int } else { 0 };
            assert(forall|j: int|
                0 <= j < kinds@.len() ==> ((kinds@[j] == WarningKind::Notice && deny_notice) || (
                kinds@[j] == WarningKind::Unmaintained && deny_unmaintained) || (kinds@[j]
                    == WarningKind::Unsound && deny_unsound) || (kinds@[j] == WarningKind::Yanked
                    && deny_yanked)));
            assert forall|k: WarningKind| #[trigger] kinds@.contains(k) == spec_denied_kind(
                config.deny@,
                k,
            ) by {
                if spec_denied_kind(config.deny@, k) {
                    match k {
                        WarningKind::Notice => {
                            assert(kinds@[0] == WarningKind::Notice);
                        },
                        WarningKind::Unmaintained => {
                            assert(kinds@[pos_unmaintained] == WarningKind::Unmaintained);
                        },
                        WarningKind::Unsound => {
                            assert(kinds@[pos_unsound] == WarningKind::Unsound);
                        },
                        WarningKind::Yanked => {
                            assert(kinds@[pos_yanked] == WarningKind::Yanked);
                        },
                    }
                    assert(kinds@.contains(k));
                } else {
                    assert(!kinds@.contains(k));
                }
            }
        }
        let mut deny_copy: Vec<DenyOption> = Vec::new();
        let mut i: usize = 0;
        while i < config.deny.len()
            invariant
                0 <= i <= config.deny@.len(),
                deny_copy@ == config.deny@.take(i as int),
            decreases config.deny@.len() - i,
        {
            deny_copy.push(config.deny[i]);
            proof {
                assert(deny_copy@ =~= config.deny@.take(i as int + 1));
            }
            i += 1;
        }
        proof {
            assert(deny_copy@ =~= config.deny@);
        }
        Presenter {
            displayed_packages: Vec::new(),
            deny_warning_kinds: kinds,
            config: OutputConfig {
                format: config.format,
                deny: deny_copy,
                show_tree: config.show_tree,
                quiet: config.quiet,
            },
        }
    }

    /// Whether the policy denies warnings of this kind.
    pub fn is_denied_kind(&self, kind: WarningKind) -> (r: bool)
        ensures
            r == self.deny_warning_kinds@.contains(kind),
    {
        let mut i: usize = 0;
        while i < self.deny_warning_kinds.len()
            invariant
                0 <= i <= self.deny_warning_kinds@.len(),
                forall|j: int| 0 <= j < i ==> self.deny_warning_kinds@[j] != kind,
            decreases self.deny_warning_kinds@.len() - i,
        {
            if self.deny_warning_kinds[i] == kind {
                return true;
            }
            i += 1;
        }
        false
    }

    /// Singular or plural noun for a warning count.
    pub fn warning_word(&self, count: u64) -> (r: &'static str)
        ensures
            r@ == spec_warning_word(count as int),
    {
        if count != 1 {
            "warnings"
        } else {
            "warning"
        }
    }

    /// Counts the report's warnings, sorted into denied and allowed.
    pub fn count_warnings(&self, report: &Report) -> (r: (u64, u64))
        requires
            spec_denied_count(report.warnings@, self.deny_warning_kinds@) + spec_allowed_count(
                report.warnings@,
                self.deny_warning_kinds@,
            ) <= u64::MAX,
        ensures
            r.0 == spec_denied_count(report.warnings@, self.deny_warning_kinds@),
            r.1 == spec_allowed_count(report.warnings@, self.deny_warning_kinds@),
    {
        let ghost groups = report.warnings@;
        let ghost denyset = self.deny_warning_kinds@;
        let mut num_denied: u64 = 0;
        let mut num_not_denied: u64 = 0;
        let mut i: usize = 0;
        proof {
            lemma_count_upto_mono(groups, denyset, true, 0, groups.len() as int);
            lemma_count_upto_mono(groups, denyset, false, 0, groups.len() as int);
        }
        while i < report.warnings.len()
            invariant
                0 <= i <= groups.len(),
                groups == report.warnings@,
                denyset == self.deny_warning_kinds@,
                spec_denied_count(groups, denyset) + spec_allowed_count(groups, denyset)
                    <= u64::MAX,
                num_denied == spec_count_upto(groups, denyset, true, i as int),
                num_not_denied == spec_count_upto(groups, denyset, false, i as int),
            decreases groups.len() - i,
        {
            let group = &report.warnings[i];
            let len64 = group.warnings.len() as u64;
            proof {
                lemma_count_upto_mono(groups, denyset, true, i as int + 1, groups.len() as int);
                lemma_count_upto_mono(groups, denyset, false, i as int + 1, groups.len() as int);
                lemma_count_upto_nonneg(groups, denyset, true, i as int);
                lemma_count_upto_nonneg(groups, denyset, false, i as int);
            }
            if self.is_denied_kind(group.kind) {
                num_denied = num_denied + len64;
            } else {
                num_not_denied = num_not_denied + len64;
            }
            i += 1;
        }
        (num_denied, num_not_denied)
    }

    /// Determines whether the process should exit with failure: true exactly
    /// when a vulnerability was found or the policy denies some warning.
    pub fn should_exit_with_failure(&self, report: &Report) -> (r: bool)
        requires
            spec_denied_count(report.warnings@, self.deny_warning_kinds@) + spec_allowed_count(
                report.warnings@,
                self.deny_warning_kinds@,
            ) <= u64::MAX,
        ensures
            r == spec_should_fail(*report, self.deny_warning_kinds@),
    {
        if report.vulnerabilities.found {
            return true;
        }
        let (denied, _allowed) = self.count_warnings(report);
        if denied != 0 {
            return true;
        }
        false
    }

    /// Determines whether advisories against this tool itself should fail
    /// the process: true exactly when the list is non-empty and the broad
    /// deny-warnings selector is configured. Never consults vulnerability
    /// data: self-advisories are a parallel failure channel.
    pub fn should_exit_with_failure_due_to_self(&self, self_advisories: &Vec<Metadata>) -> (r:
        bool)
        ensures
            r == (self_advisories@.len() > 0 && self.config.spec_deny_warnings()),
    {
        self_advisories.len() > 0 && self.config.denies_all_warnings()
    }
}

/// The display text of a warning kind.
pub open spec fn spec_kind_str(k: WarningKind) -> Seq<char> {
    match k {
        WarningKind::Notice => "notice"@,
        WarningKind::Unmaintained => "unmaintained"@,
        WarningKind::Unsound => "unsound"@,
        WarningKind::Yanked => "yanked"@,
    }
}

/// Display text of a warning kind.
pub fn warning_kind_str(k: WarningKind) -> (r: &'static str)
    ensures
        r@ == spec_kind_str(k),
{
    match k {
        WarningKind::Notice => "notice",
        WarningKind::Unmaintained => "unmaintained",
        WarningKind::Unsound => "unsound",
        WarningKind::Yanked => "yanked",
    }
}

/// Appends one attribute line.
fn print_attr(out: &mut Vec<Line>, color: Color, label: &str, content: String)
    ensures
        lines_view(final(out)@) == lines_view(old(out)@) + seq![
            LineModel::Attr { color, label: label@, content: content@ },
        ],
{
    let ghost pre = lines_view(out@);
    out.push(Line::Attr { color, label: label.to_owned(), content });
    proof {
        assert(lines_view(out@) =~= pre + seq![
            LineModel::Attr { color, label: label@, content: content@ },
        ]);
    }
}

/// Attribute lines of an advisory metadata block: title, date, identifier,
/// the canonical URL when one exists, and severity when given.
pub open spec fn spec_metadata_lines(m: Metadata, color: Color) -> Seq<LineModel> {
    seq![
        LineModel::Attr { color, label: "Title:    "@, content: m.title@ },
        LineModel::Attr { color, label: "Date:     "@, content: m.date@ },
        LineModel::Attr { color, label: "ID:       "@, content: m.id@ },
    ] + (match m.spec_canonical() {
        Some(u) => seq![LineModel::Attr { color, label: "URL:      "@, content: u }],
        None => Seq::empty(),
    }) + (match opt_string_view(m.severity) {
        Some(s) => seq![LineModel::Attr { color, label: "Severity: "@, content: s }],
        None => Seq::empty(),
    })
}

/// Appends an advisory metadata block.
fn print_metadata(out: &mut Vec<Line>, metadata: &Metadata, color: Color)
    ensures
        lines_view(final(out)@) == lines_view(old(out)@) + spec_metadata_lines(*metadata, color),
{
    let ghost pre = lines_view(out@);
    print_attr(out, color, "Title:    ", metadata.title.clone());
    print_attr(out, color, "Date:     ", metadata.date.clone());
    print_attr(out, color, "ID:       ", metadata.id.clone());
    match metadata.canonical_url() {
        Some(u) => {
            let content = u.clone();
            print_attr(out, color, "URL:      ", content);
        },
        None => {},
    }
    match &metadata.severity {
        Some(s) => {
            let content = s.clone();
            print_attr(out, color, "Severity: ", content);
        },
        None => {},
    }
    proof {
        assert(lines_view(out@) =~= pre + spec_metadata_lines(*metadata, color));
    }
}

/// The first `n` patched versions joined with " OR " separators.
pub open spec fn spec_join_or(vs: Seq<String>, n: int) -> Seq<char>
    decreases n,
{
    if n <= 0 {
        Seq::empty()
    } else if n == 1 {
        vs[0]@
    } else {
        spec_join_or(vs, n - 1) + " OR "@ + vs[n - 1]@
    }
}

/// Joins the patched versions with " OR " separators.
fn join_or(vs: &Vec<String>) -> (r: String)
    ensures
        r@ == spec_join_or(vs@, vs@.len() as int),
{
    let mut r = String::new();
    let mut i: usize = 0;
    while i < vs.len()
        invariant
            0 <= i <= vs@.len(),
            r@ == spec_join_or(vs@, i as int),
        decreases vs@.len() - i,
    {
        if i > 0 {
            r.append(" OR ");
        }
        r.append(vs[i].as_str());
        proof {
            if i == 0 {
                assert(r@ =~= vs@[0]@);
            }
        }
        i += 1;
    }
    r
}

/// The solution line of a vulnerability: the patched versions to upgrade to,
/// or the statement that no fixed upgrade exists.
pub open spec fn spec_solution_lines(v: Vulnerability) -> Seq<LineModel> {
    if v.patched@.len() == 0 {
        seq![
            LineModel::Attr {
                color: Color::Red,
                label: "Solution: "@,
                content: "No fixed upgrade is available!"@,
            },
        ]
    } else {
        seq![
            LineModel::Attr {
                color: Color::Red,
                label: "Solution: "@,
                content: "Upgrade to "@ + spec_join_or(v.patched@, v.patched@.len() as int),
            },
        ]
    }
}

/// Appends the solution line of a vulnerability.
fn print_solution(out: &mut Vec<Line>, v: &Vulnerability)
    ensures
        lines_view(final(out)@) == lines_view(old(out)@) + spec_solution_lines(*v),
{
    if v.patched.len() == 0 {
        print_attr(out, Color::Red, "Solution: ", "No fixed upgrade is available!".to_owned());
    } else {
        let mut content = "Upgrade to ".to_owned();
        let joined = join_or(&v.patched);
        content.append(joined.as_str());
        print_attr(out, Color::Red, "Solution: ", content);
    }
}

/// Whether a package identity was already displayed.
fn contains_package(v: &Vec<Package>, p: &Package) -> (r: bool)
    ensures
        r == displayed_keys(v@).contains(p@),
{
    let mut i: usize = 0;
    while i < v.len()
        invariant
            0 <= i <= v@.len(),
            forall|j: int| 0 <= j < i ==> v@[j]@ != p@,
        decreases v@.len() - i,
    {
        if v[i].same_key(p) {
            proof {
                assert(displayed_keys(v@)[i as int] == p@);
            }
            return true;
        }
        i += 1;
    }
    proof {
        if displayed_keys(v@).contains(p@) {
            let j = choose|j: int| 0 <= j < displayed_keys(v@).len() && displayed_keys(v@)[j]
                == p@;
            assert(v@[j]@ == p@);
        }
    }
    false
}

/// The dependency-path step for one package: nothing if the package was
/// already displayed; otherwise the package becomes displayed, and, when
/// tree display is enabled, its inverse-dependency forest is rendered — or
/// its absence from the graph is reported as a fatal inconsistency.
pub open spec fn spec_print_tree(
    d: Seq<PackageModel>,
    color: Color,
    pkg: Package,
    tree: &DependencyTree,
    show: bool,
) -> (Result<Seq<LineModel>, PackageModel>, Seq<PackageModel>) {
    if d.contains(pkg@) {
        (Ok(Seq::empty()), d)
    } else {
        let d2 = d.push(pkg@);
        if !show {
            (Ok(Seq::empty()), d2)
        } else {
            match tree.spec_lookup(pkg@) {
                None => (Err(pkg@), d2),
                Some(node) => (
                    Ok(seq![LineModel::TreeHeader { color }] + tree.spec_render_forest(node)),
                    d2,
                ),
            }
        }
    }
}

impl Presenter {
    /// Appends the inverse dependency tree of a package, at most once per
    /// presenter lifetime per package. Dedup bookkeeping happens on first
    /// encounter whether or not tree display is enabled; the display flag
    /// only gates the emitted text.
    pub fn print_tree(
        &mut self,
        out: &mut Vec<Line>,
        color: Color,
        package: &Package,
        tree: &DependencyTree,
    ) -> (r: Result<(), PresentError>)
        requires
            tree.wf(),
        ensures
            final(self).deny_warning_kinds == old(self).deny_warning_kinds,
            final(self).config == old(self).config,
            ({
                let (res, d2) = spec_print_tree(
                    displayed_keys(old(self).displayed_packages@),
                    color,
                    *package,
                    tree,
                    old(self).config.spec_show_tree(),
                );
                &&& displayed_keys(final(self).displayed_packages@) == d2
                &&& match res {
                    Ok(ls) => r is Ok && lines_view(final(out)@) == lines_view(old(out)@) + ls,
                    Err(k) => (r matches Err(PresentError::PackageNotInTree { package: p })
                        && p@ == k) && lines_view(final(out)@) == lines_view(old(out)@),
                }
            }),
    {
        if contains_package(&self.displayed_packages, package) {
            return Ok(());
        }
        self.displayed_packages.push(package.duplicate());
        proof {
            assert(displayed_keys(self.displayed_packages@) =~= displayed_keys(
                old(self).displayed_packages@,
            ).push(package@));
        }
        let show = match self.config.show_tree {
            Some(b) => b,
            None => true,
        };
        if !show {
            return Ok(());
        }
        match tree.lookup(package) {
            None => Err(PresentError::PackageNotInTree { package: package.duplicate() }),
            Some(node) => {
                let ghost pre = lines_view(out@);
                out.push(Line::TreeHeader { color });
                proof {
                    assert(lines_view(out@) =~= pre + seq![LineModel::TreeHeader { color }]);
                }
                tree.render_forest(node, out);
                proof {
                    assert((pre + seq![LineModel::TreeHeader { color }])
                        + tree.spec_render_forest(node as int) =~= pre + (seq![
                        LineModel::TreeHeader { color },
                    ] + tree.spec_render_forest(node as int)));
                }
                Ok(())
            },
        }
    }
}

/// All the lines for one vulnerability: package identity, advisory
/// metadata, the solution line, its dependency path, and a blank separator.
pub open spec fn spec_print_vulnerability(
    d: Seq<PackageModel>,
    v: Vulnerability,
    tree: &DependencyTree,
    show: bool,
) -> (Result<Seq<LineModel>, PackageModel>, Seq<PackageModel>) {
    let head = seq![
        LineModel::Attr { color: Color::Red, label: "Crate:    "@, content: v.package.name@ },
        LineModel::Attr { color: Color::Red, label: "Version:  "@, content: v.package.version@ },
    ] + spec_metadata_lines(v.advisory, Color::Red) + spec_solution_lines(v);
    let (tr, d2) = spec_print_tree(d, Color::Red, v.package, tree, show);
    match tr {
        Ok(tl) => (Ok(head + tl + seq![LineModel::Blank]), d2),
        Err(k) => (Err(k), d2),
    }
}

/// All the lines for one warning: package identity, its kind, the advisory
/// metadata when there is one, its dependency path, and a blank separator;
/// colored red when the policy denies the kind, yellow otherwise.
pub open spec fn spec_print_warning(
    d: Seq<PackageModel>,
    w: Warning,
    denyset: Seq<WarningKind>,
    tree: &DependencyTree,
    show: bool,
) -> (Result<Seq<LineModel>, PackageModel>, Seq<PackageModel>) {
    let color = if denyset.contains(w.kind) {
        Color::Red
    } else {
        Color::Yellow
    };
    let head = seq![
        LineModel::Attr { color, label: "Crate:    "@, content: w.package.name@ },
        LineModel::Attr { color, label: "Version:  "@, content: w.package.version@ },
        LineModel::Attr { color, label: "Warning:  "@, content: spec_kind_str(w.kind) },
    ] + (match w.advisory {
        Some(m) => spec_metadata_lines(m, color),
        None => Seq::empty(),
    });
    let (tr, d2) = spec_print_tree(d, color, w.package, tree, show);
    match tr {
        Ok(tl) => (Ok(head + tl + seq![LineModel::Blank]), d2),
        Err(k) => (Err(k), d2),
    }
}

impl Presenter {
    /// Appends the display block of one vulnerability.
    pub fn print_vulnerability(
        &mut self,
        out: &mut Vec<Line>,
        vulnerability: &Vulnerability,
        tree: &DependencyTree,
    ) -> (r: Result<(), PresentError>)
        requires
            tree.wf(),
        ensures
            final(self).deny_warning_kinds == old(self).deny_warning_kinds,
            final(self).config == old(self).config,
            ({
                let (res, d2) = spec_print_vulnerability(
                    displayed_keys(old(self).displayed_packages@),
                    *vulnerability,
                    tree,
                    old(self).config.spec_show_tree(),
                );
                &&& displayed_keys(final(self).displayed_packages@) == d2
                &&& match res {
                    Ok(ls) => r is Ok && lines_view(final(out)@) == lines_view(old(out)@) + ls,
                    Err(k) => r matches Err(PresentError::PackageNotInTree { package: p }) && p@
                        == k,
                }
            }),
    {
        let ghost pre = lines_view(out@);
        print_attr(out, Color::Red, "Crate:    ", vulnerability.package.name.clone());
        print_attr(out, Color::Red, "Version:  ", vulnerability.package.version.clone());
        print_metadata(out, &vulnerability.advisory, Color::Red);
        print_solution(out, vulnerability);
        match self.print_tree(out, Color::Red, &vulnerability.package, tree) {
            Err(e) => Err(e),
            Ok(()) => {
                let ghost with_tree = lines_view(out@);
                out.push(Line::Blank);
                proof {
                    assert(lines_view(out@) =~= with_tree + seq![LineModel::Blank]);
                    let (res, d2) = spec_print_vulnerability(
                        displayed_keys(old(self).displayed_packages@),
                        *vulnerability,
                        tree,
                        old(self).config.spec_show_tree(),
                    );
                    match res {
                        Ok(ls) => {
                            assert(lines_view(out@) =~= pre + ls);
                        },
                        Err(_) => {},
                    }
                }
                Ok(())
            },
        }
    }

    /// Appends the display block of one warning.
    pub fn print_warning(&mut self, out: &mut Vec<Line>, warning: &Warning, tree: &DependencyTree)
        -> (r: Result<(), PresentError>)
        requires
            tree.wf(),
        ensures
            final(self).deny_warning_kinds == old(self).deny_warning_kinds,
            final(self).config == old(self).config,
            ({
                let (res, d2) = spec_print_warning(
                    displayed_keys(old(self).displayed_packages@),
                    *warning,
                    old(self).deny_warning_kinds@,
                    tree,
                    old(self).config.spec_show_tree(),
                );
                &&& displayed_keys(final(self).displayed_packages@) == d2
                &&& match res {
                    Ok(ls) => r is Ok && lines_view(final(out)@) == lines_view(old(out)@) + ls,
                    Err(k) => r matches Err(PresentError::PackageNotInTree { package: p }) && p@
                        == k,
                }
            }),
    {
        let ghost pre = lines_view(out@);
        let color = if self.is_denied_kind(warning.kind) {
            Color::Red
        } else {
            Color::Yellow
        };
        print_attr(out, color, "Crate:    ", warning.package.name.clone());
        print_attr(out, color, "Version:  ", warning.package.version.clone());
        print_attr(out, color, "Warning:  ", warning_kind_str(warning.kind).to_owned());
        match &warning.advisory {
            Some(metadata) => print_metadata(out, metadata, color),
            None => {},
        }
        match self.print_tree(out, color, &warning.package, tree) {
            Err(e) => Err(e),
            Ok(()) => {
                let ghost with_tree = lines_view(out@);
                out.push(Line::Blank);
                proof {
                    assert(lines_view(out@) =~= with_tree + seq![LineModel::Blank]);
                    let (res, d2) = spec_print_warning(
                        displayed_keys(old(self).displayed_packages@),
                        *warning,
                        old(self).deny_warning_kinds@,
                        tree,
                        old(self).config.spec_show_tree(),
                    );
                    match res {
                        Ok(ls) => {
                            assert(lines_view(out@) =~= pre + ls);
                        },
                        Err(_) => {},
                    }
                }
                Ok(())
            },
        }
    }
}

/// The display blocks of the vulnerabilities from position `i` on, in list
/// order, threading the displayed-package set through.
pub open spec fn spec_print_vuln_list(
    d: Seq<PackageModel>,
    list: Seq<Vulnerability>,
    i: int,
    tree: &DependencyTree,
    show: bool,
) -> (Result<Seq<LineModel>, PackageModel>, Seq<PackageModel>)
    decreases list.len() - i,
{
    if i < 0 || i >= list.len() {
        (Ok(Seq::empty()), d)
    } else {
        let (r1, d1) = spec_print_vulnerability(d, list[i], tree, show);
        match r1 {
            Err(k) => (Err(k), d1),
            Ok(l1) => {
                let (r2, d2) = spec_print_vuln_list(d1, list, i + 1, tree, show);
                match r2 {
                    Err(k) => (Err(k), d2),
                    Ok(l2) => (Ok(l1 + l2), d2),
                }
            },
        }
    }
}

/// The display blocks of the warnings from position `i` on, in list order.
pub open spec fn spec_print_warning_list(
    d: Seq<PackageModel>,
    list: Seq<Warning>,
    i: int,
    denyset: Seq<WarningKind>,
    tree: &DependencyTree,
    show: bool,
) -> (Result<Seq<LineModel>, PackageModel>, Seq<PackageModel>)
    decreases list.len() - i,
{
    if i < 0 || i >= list.len() {
        (Ok(Seq::empty()), d)
    } else {
        let (r1, d1) = spec_print_warning(d, list[i], denyset, tree, show);
        match r1 {
            Err(k) => (Err(k), d1),
            Ok(l1) => {
                let (r2, d2) = spec_print_warning_list(d1, list, i + 1, denyset, tree, show);
                match r2 {
                    Err(k) => (Err(k), d2),
                    Ok(l2) => (Ok(l1 + l2), d2),
                }
            },
        }
    }
}

/// The display blocks of the warning groups from position `g` on: each
/// group's warnings in order, groups in report order.
pub open spec fn spec_print_group_list(
    d: Seq<PackageModel>,
    groups: Seq<WarningGroup>,
    g: int,
    denyset: Seq<WarningKind>,
    tree: &DependencyTree,
    show: bool,
) -> (Result<Seq<LineModel>, PackageModel>, Seq<PackageModel>)
    decreases groups.len() - g,
{
    if g < 0 || g >= groups.len() {
        (Ok(Seq::empty()), d)
    } else {
        let (r1, d1) = spec_print_warning_list(d, groups[g].warnings@, 0, denyset, tree, show);
        match r1 {
            Err(k) => (Err(k), d1),
            Ok(l1) => {
                let (r2, d2) = spec_print_group_list(d1, groups, g + 1, denyset, tree, show);
                match r2 {
                    Err(k) => (Err(k), d2),
                    Ok(l2) => (Ok(l1 + l2), d2),
                }
            },
        }
    }
}

/// The aggregate status lines after all findings: an error line when any
/// vulnerability was found, an error line when the policy denies a nonzero
/// number of warnings, and a warning line when a nonzero number is allowed.
pub open spec fn spec_aggregate_lines(
    report: Report,
    denyset: Seq<WarningKind>,
    path: Option<Seq<char>>,
) -> Seq<LineModel> {
    let nd = spec_denied_count(report.warnings@, denyset);
    let na = spec_allowed_count(report.warnings@, denyset);
    (if report.vulnerabilities.found {
        seq![
            LineModel::Status {
                severity: Severity::Error,
                label: None,
                message: spec_vuln_message(report.vulnerabilities.count as int, path),
            },
        ]
    } else {
        Seq::empty()
    }) + (if nd > 0 {
        seq![
            LineModel::Status {
                severity: Severity::Error,
                label: None,
                message: spec_denied_message(nd, path),
            },
        ]
    } else {
        Seq::empty()
    }) + (if na > 0 {
        seq![
            LineModel::Status {
                severity: Severity::Warning,
                label: None,
                message: spec_allowed_message(na, path),
            },
        ]
    } else {
        Seq::empty()
    })
}

/// The whole human-readable report: every vulnerability in list order, then
/// every warning grouped by kind, then the aggregate status lines.
pub open spec fn spec_print_report(
    d: Seq<PackageModel>,
    report: Report,
    denyset: Seq<WarningKind>,
    tree: &DependencyTree,
    show: bool,
    path: Option<Seq<char>>,
) -> (Result<Seq<LineModel>, PackageModel>, Seq<PackageModel>) {
    let (r1, d1) = spec_print_vuln_list(d, report.vulnerabilities.list@, 0, tree, show);
    match r1 {
        Err(k) => (Err(k), d1),
        Ok(l1) => {
            let (r2, d2) = spec_print_group_list(d1, report.warnings@, 0, denyset, tree, show);
            match r2 {
                Err(k) => (Err(k), d2),
                Ok(l2) => (Ok(l1 + l2 + spec_aggregate_lines(report, denyset, path)), d2),
            }
        },
    }
}

impl Presenter {
    /// Appends the display blocks of all vulnerabilities, in list order.
    fn print_vulnerability_list(&mut self, list: &Vec<Vulnerability>, tree: &DependencyTree) -> (r:
        Result<Vec<Line>, PresentError>)
        requires
            tree.wf(),
        ensures
            final(self).deny_warning_kinds == old(self).deny_warning_kinds,
            final(self).config == old(self).config,
            ({
                let (res, d2) = spec_print_vuln_list(
                    displayed_keys(old(self).displayed_packages@),
                    list@,
                    0,
                    tree,
                    old(self).config.spec_show_tree(),
                );
                &&& displayed_keys(final(self).displayed_packages@) == d2
                &&& match res {
                    Ok(ls) => r matches Ok(v) && lines_view(v@) == ls,
                    Err(k) => r matches Err(PresentError::PackageNotInTree { package: p }) && p@
                        == k,
                }
            }),
    {
        let ghost d0 = displayed_keys(self.displayed_packages@);
        let ghost show = self.config.spec_show_tree();
        let ghost whole = spec_print_vuln_list(d0, list@, 0, tree, show);
        let mut out: Vec<Line> = Vec::new();
        let mut i: usize = 0;
        proof {
            match spec_print_vuln_list(d0, list@, 0, tree, show) {
                (Ok(rest), dr) => {
                    assert(Seq::<LineModel>::empty() + rest =~= rest);
                    assert(lines_view(out@) =~= Seq::<LineModel>::empty());
                },
                _ => {},
            }
        }
        while i < list.len()
            invariant
                tree.wf(),
                0 <= i <= list@.len(),
                self.config == old(self).config,
                self.deny_warning_kinds == old(self).deny_warning_kinds,
                show == self.config.spec_show_tree(),
                d0 == displayed_keys(old(self).displayed_packages@),
                whole == spec_print_vuln_list(d0, list@, 0, tree, show),
                ({
                    let (rr, dr) = spec_print_vuln_list(
                        displayed_keys(self.displayed_packages@),
                        list@,
                        i as int,
                        tree,
                        show,
                    );
                    whole == (
                        match rr {
                            Ok(rest) => (
                                Result::<Seq<LineModel>, PackageModel>::Ok(
                                    lines_view(out@) + rest,
                                ),
                                dr,
                            ),
                            Err(k) => (Result::<Seq<LineModel>, PackageModel>::Err(k), dr),
                        }
                    )
                }),
            decreases list@.len() - i,
        {
            let ghost pre_d = displayed_keys(self.displayed_packages@);
            let ghost pre_lines = lines_view(out@);
            match self.print_vulnerability(&mut out, &list[i], tree) {
                Err(e) => {
                    proof {
                        let (r1, d1) = spec_print_vulnerability(pre_d, list@[i as int], tree, show);
                        let (rr, dr) = spec_print_vuln_list(pre_d, list@, i as int, tree, show);
                        assert(rr is Err);
                    }
                    return Err(e);
                },
                Ok(()) => {
                    proof {
                        let (r1, d1) = spec_print_vulnerability(pre_d, list@[i as int], tree, show);
                        match r1 {
                            Ok(l1) => {
                                let (r2, d2) = spec_print_vuln_list(
                                    displayed_keys(self.displayed_packages@),
                                    list@,
                                    i as int + 1,
                                    tree,
                                    show,
                                );
                                match r2 {
                                    Ok(l2) => {
                                        assert((pre_lines + l1) + l2 =~= pre_lines + (l1 + l2));
                                    },
                                    Err(_) => {},
                                }
                            },
                            Err(_) => {},
                        }
                    }
                },
            }
            i += 1;
        }
        proof {
            match spec_print_vuln_list(
                displayed_keys(self.displayed_packages@),
                list@,
                i as int,
                tree,
                show,
            ) {
                (Ok(rest), dr) => {
                    assert(lines_view(out@) + rest =~= lines_view(out@));
                },
                _ => {},
            }
        }
        Ok(out)
    }

    /// Appends the display blocks of one group's warnings, in list order.
    fn print_warning_list(&mut self, list: &Vec<Warning>, tree: &DependencyTree) -> (r: Result<
        Vec<Line>,
        PresentError,
    >)
        requires
            tree.wf(),
        ensures
            final(self).deny_warning_kinds == old(self).deny_warning_kinds,
            final(self).config == old(self).config,
            ({
                let (res, d2) = spec_print_warning_list(
                    displayed_keys(old(self).displayed_packages@),
                    list@,
                    0,
                    old(self).deny_warning_kinds@,
                    tree,
                    old(self).config.spec_show_tree(),
                );
                &&& displayed_keys(final(self).displayed_packages@) == d2
                &&& match res {
                    Ok(ls) => r matches Ok(v) && lines_view(v@) == ls,
                    Err(k) => r matches Err(PresentError::PackageNotInTree { package: p }) && p@
                        == k,
                }
            }),
    {
        let ghost d0 = displayed_keys(self.displayed_packages@);
        let ghost show = self.config.spec_show_tree();
        let ghost denyset = self.deny_warning_kinds@;
        let ghost whole = spec_print_warning_list(d0, list@, 0, denyset, tree, show);
        let mut out: Vec<Line> = Vec::new();
        let mut i: usize = 0;
        proof {
            match spec_print_warning_list(d0, list@, 0, denyset, tree, show) {
                (Ok(rest), dr) => {
                    assert(Seq::<LineModel>::empty() + rest =~= rest);
                    assert(lines_view(out@) =~= Seq::<LineModel>::empty());
                },
                _ => {},
            }
        }
        while i < list.len()
            invariant
                tree.wf(),
                0 <= i <= list@.len(),
                self.config == old(self).config,
                self.deny_warning_kinds == old(self).deny_warning_kinds,
                show == self.config.spec_show_tree(),
                denyset == self.deny_warning_kinds@,
                d0 == displayed_keys(old(self).displayed_packages@),
                whole == spec_print_warning_list(d0, list@, 0, denyset, tree, show),
                ({
                    let (rr, dr) = spec_print_warning_list(
                        displayed_keys(self.displayed_packages@),
                        list@,
                        i as int,
                        denyset,
                        tree,
                        show,
                    );
                    whole == (
                        match rr {
                            Ok(rest) => (
                                Result::<Seq<LineModel>, PackageModel>::Ok(
                                    lines_view(out@) + rest,
                                ),
                                dr,
                            ),
                            Err(k) => (Result::<Seq<LineModel>, PackageModel>::Err(k), dr),
                        }
                    )
                }),
            decreases list@.len() - i,
        {
            let ghost pre_d = displayed_keys(self.displayed_packages@);
            let ghost pre_lines = lines_view(out@);
            match self.print_warning(&mut out, &list[i], tree) {
                Err(e) => {
                    proof {
                        let (r1, d1) = spec_print_warning(pre_d, list@[i as int], denyset, tree, show);
                        let (rr, dr) = spec_print_warning_list(
                            pre_d,
                            list@,
                            i as int,
                            denyset,
                            tree,
                            show,
                        );
                        assert(rr is Err);
                    }
                    return Err(e);
                },
                Ok(()) => {
                    proof {
                        let (r1, d1) = spec_print_warning(
                            pre_d,
                            list@[i as int],
                            denyset,
                            tree,
                            show,
                        );
                        match r1 {
                            Ok(l1) => {
                                let (r2, d2) = spec_print_warning_list(
                                    displayed_keys(self.displayed_packages@),
                                    list@,
                                    i as int + 1,
                                    denyset,
                                    tree,
                                    show,
                                );
                                match r2 {
                                    Ok(l2) => {
                                        assert((pre_lines + l1) + l2 =~= pre_lines + (l1 + l2));
                                    },
                                    Err(_) => {},
                                }
                            },
                            Err(_) => {},
                        }
                    }
                },
            }
            i += 1;
        }
        proof {
            match spec_print_warning_list(
                displayed_keys(self.displayed_packages@),
                list@,
                i as int,
                denyset,
                tree,
                show,
            ) {
                (Ok(rest), dr) => {
                    assert(lines_view(out@) + rest =~= lines_view(out@));
                },
                _ => {},
            }
        }
        Ok(out)
    }

    /// Prints the report: machine-readable output is selected verbatim with
    /// no human formatting; otherwise every vulnerability, every warning
    /// grouped by kind, and the aggregate status lines are rendered, and a
    /// package missing from the dependency graph is a fatal inconsistency.
    pub fn print_report(
        &mut self,
        report: &Report,
        tree: &DependencyTree,
        path: Option<&String>,
    ) -> (r: Result<ReportOutput, PresentError>)
        requires
            tree.wf(),
            report.wf(),
            spec_denied_count(report.warnings@, old(self).deny_warning_kinds@)
                + spec_allowed_count(report.warnings@, old(self).deny_warning_kinds@) <= u64::MAX,
        ensures
            final(self).deny_warning_kinds == old(self).deny_warning_kinds,
            final(self).config == old(self).config,
            old(self).config.format == OutputFormat::Json ==> (r matches Ok(
                ReportOutput::MachineReadable,
            ) && final(self).displayed_packages == old(self).displayed_packages),
            old(self).config.format != OutputFormat::Json ==> ({
                let (res, d2) = spec_print_report(
                    displayed_keys(old(self).displayed_packages@),
                    *report,
                    old(self).deny_warning_kinds@,
                    tree,
                    old(self).config.spec_show_tree(),
                    opt_path_view(path),
                );
                match res {
                    Ok(ls) => r matches Ok(o) && (o matches ReportOutput::Human(lines)
                        && lines_view(lines@) == ls) && displayed_keys(
                        final(self).displayed_packages@,
                    ) == d2,
                    Err(k) => r matches Err(PresentError::PackageNotInTree { package: p }) && p@
                        == k,
                }
            }),
    {
        if self.config.format == OutputFormat::Json {
            return Ok(ReportOutput::MachineReadable);
        }
        let ghost d0 = displayed_keys(self.displayed_packages@);
        let ghost show = self.config.spec_show_tree();
        let ghost denyset = self.deny_warning_kinds@;
        let mut out: Vec<Line>;
        match self.print_vulnerability_list(&report.vulnerabilities.list, tree) {
            Err(e) => {
                proof {
                    let (res, dfin) = spec_print_report(
                        d0,
                        *report,
                        denyset,
                        tree,
                        show,
                        opt_path_view(path),
                    );
                    assert(res is Err);
                }
                return Err(e);
            },
            Ok(v) => {
                out = v;
            },
        }
        let ghost vuln_lines = lines_view(out@);
        let mut g: usize = 0;
        let ghost d1 = displayed_keys(self.displayed_packages@);
        let ghost groups_whole = spec_print_group_list(d1, report.warnings@, 0, denyset, tree, show);
        proof {
            match groups_whole {
                (Ok(rest), dr) => {
                    assert(Seq::<LineModel>::empty() + rest =~= rest);
                },
                _ => {},
            }
        }
        let ghost base = lines_view(out@);
        while g < report.warnings.len()
            invariant
                tree.wf(),
                0 <= g <= report.warnings@.len(),
                self.config == old(self).config,
                self.deny_warning_kinds == old(self).deny_warning_kinds,
                show == self.config.spec_show_tree(),
                denyset == self.deny_warning_kinds@,
                base == vuln_lines,
                old(self).config.format != OutputFormat::Json,
                d0 == displayed_keys(old(self).displayed_packages@),
                spec_print_vuln_list(d0, report.vulnerabilities.list@, 0, tree, show) == (
                    Result::<Seq<LineModel>, PackageModel>::Ok(vuln_lines),
                    d1,
                ),
                groups_whole == spec_print_group_list(d1, report.warnings@, 0, denyset, tree, show),
                base.len() <= lines_view(out@).len(),
                lines_view(out@).take(base.len() as int) == base,
                ({
                    let (rr, dr) = spec_print_group_list(
                        displayed_keys(self.displayed_packages@),
                        report.warnings@,
                        g as int,
                        denyset,
                        tree,
                        show,
                    );
                    groups_whole == (
                        match rr {
                            Ok(rest) => (
                                Result::<Seq<LineModel>, PackageModel>::Ok(
                                    lines_view(out@).skip(base.len() as int) + rest,
                                ),
                                dr,
                            ),
                            Err(k) => (Result::<Seq<LineModel>, PackageModel>::Err(k), dr),
                        }
                    )
                }),
            decreases report.warnings@.len() - g,
        {
            let ghost pre_d = displayed_keys(self.displayed_packages@);
            let ghost pre_lines = lines_view(out@);
            match self.print_warning_list(&report.warnings[g].warnings, tree) {
                Err(e) => {
                    proof {
                        let (rw, dw) = spec_print_warning_list(
                            pre_d,
                            report.warnings@[g as int].warnings@,
                            0,
                            denyset,
                            tree,
                            show,
                        );
                        let (rg, dg) = spec_print_group_list(
                            pre_d,
                            report.warnings@,
                            g as int,
                            denyset,
                            tree,
                            show,
                        );
                        assert(rg is Err);
                        let (res, dfin) = spec_print_report(
                            d0,
                            *report,
                            denyset,
                            tree,
                            show,
                            opt_path_view(path),
                        );
                        assert(res is Err);
                    }
                    return Err(e);
                },
                Ok(mut produced) => {
                    let ghost produced_lines = lines_view(produced@);
                    out.append(&mut produced);
                    proof {
                        assert(lines_view(out@) =~= pre_lines + produced_lines);
                        assert(lines_view(out@).take(base.len() as int) =~= base);
                        let (r1, da) = spec_print_warning_list(
                            pre_d,
                            report.warnings@[g as int].warnings@,
                            0,
                            denyset,
                            tree,
                            show,
                        );
                        match r1 {
                            Ok(l1) => {
                                let (r2, d2) = spec_print_group_list(
                                    displayed_keys(self.displayed_packages@),
                                    report.warnings@,
                                    g as int + 1,
                                    denyset,
                                    tree,
                                    show,
                                );
                                match r2 {
                                    Ok(l2) => {
                                        assert(lines_view(out@).skip(base.len() as int)
                                            =~= pre_lines.skip(base.len() as int) + l1);
                                        assert((pre_lines.skip(base.len() as int) + l1) + l2
                                            =~= pre_lines.skip(base.len() as int) + (l1 + l2));
                                    },
                                    Err(_) => {},
                                }
                            },
                            Err(_) => {},
                        }
                    }
                },
            }
            g += 1;
        }
        proof {
            match spec_print_group_list(
                displayed_keys(self.displayed_packages@),
                report.warnings@,
                g as int,
                denyset,
                tree,
                show,
            ) {
                (Ok(rest), dr) => {
                    assert(lines_view(out@).skip(base.len() as int) + rest =~= lines_view(
                        out@,
                    ).skip(base.len() as int));
                },
                _ => {},
            }
        }
        let ghost body_lines = lines_view(out@);
        if report.vulnerabilities.found {
            let msg = vuln_message(report.vulnerabilities.count, path);
            let ghost pre = lines_view(out@);
            out.push(Line::Status { severity: Severity::Error, label: None, message: msg });
            proof {
                assert(lines_view(out@) =~= pre + seq![
                    LineModel::Status {
                        severity: Severity::Error,
                        label: None,
                        message: spec_vuln_message(
                            report.vulnerabilities.count as int,
                            opt_path_view(path),
                        ),
                    },
                ]);
            }
        }
        let counts = self.count_warnings(report);
        let num_denied = counts.0;
        let num_not_denied = counts.1;
        if num_denied > 0 || num_not_denied > 0 {
            if num_denied > 0 {
                let msg = warning_count_message(num_denied, true, path);
                let ghost pre = lines_view(out@);
                out.push(Line::Status { severity: Severity::Error, label: None, message: msg });
                proof {
                    assert(lines_view(out@) =~= pre + seq![
                        LineModel::Status {
                            severity: Severity::Error,
                            label: None,
                            message: spec_denied_message(num_denied as int, opt_path_view(path)),
                        },
                    ]);
                }
            }
            if num_not_denied > 0 {
                let msg = warning_count_message(num_not_denied, false, path);
                let ghost pre = lines_view(out@);
                out.push(Line::Status { severity: Severity::Warning, label: None, message: msg });
                proof {
                    assert(lines_view(out@) =~= pre + seq![
                        LineModel::Status {
                            severity: Severity::Warning,
                            label: None,
                            message: spec_allowed_message(
                                num_not_denied as int,
                                opt_path_view(path),
                            ),
                        },
                    ]);
                }
            }
        }
        proof {
            assert(lines_view(out@) =~= body_lines + spec_aggregate_lines(
                *report,
                denyset,
                opt_path_view(path),
            ));
            let (res, dfin) = spec_print_report(d0, *report, denyset, tree, show, opt_path_view(path));
            match res {
                Ok(ls) => {
                    assert(body_lines =~= vuln_lines + body_lines.skip(base.len() as int));
                    assert(lines_view(out@) =~= ls);
                },
                Err(_) => {},
            }
        }
        Ok(ReportOutput::Human(out))
    }
}

/// The scan notice shown before a report is generated.
pub open spec fn spec_scan_message(path: Seq<char>, package_count: int) -> Seq<char> {
    path + " for vulnerabilities ("@ + spec_dec(package_count) + " crate dependencies)"@
}

/// What a binary scan recovered: complete dependency data, a partial
/// recovery, or nothing.
pub enum BinaryScanOutcome {
    /// Embedded dependency data was found, covering this many dependencies.
    Complete { dependency_count: u64 },
    /// No embedded data; this many dependencies were recovered otherwise.
    Incomplete { recovered_count: u64 },
    /// No dependency information at all.
    NoInfo,
}

/// The status line reported for a binary scan outcome.
pub open spec fn spec_binary_scan_line(outcome: BinaryScanOutcome, path: Seq<char>) -> LineModel {
    match outcome {
        BinaryScanOutcome::Complete { dependency_count } => LineModel::Status {
            severity: Severity::Success,
            label: Some("Found"@),
            message: "'cargo auditable' data in "@ + path + " ("@ + spec_dec(
                dependency_count as int,
            ) + " dependencies)"@,
        },
        BinaryScanOutcome::Incomplete { recovered_count } => LineModel::Status {
            severity: Severity::Warning,
            label: None,
            message: path
                + " was not built with 'cargo auditable', the report will be incomplete ("@
                + spec_dec(recovered_count as int) + " dependencies recovered)"@,
        },
        BinaryScanOutcome::NoInfo => LineModel::Status {
            severity: Severity::Error,
            label: None,
            message: "No dependency information found in "@ + path
                + "! Is it a Rust program built with cargo?"@,
        },
    }
}

/// The notice shown when this tool itself has known advisories.
pub open spec fn spec_self_msg() -> Seq<char> {
    "This copy of cargo-audit has known advisories! Upgrade cargo-audit to the latest version: cargo install --force cargo-audit --locked"@
}

/// The metadata blocks of the self-advisories from position `i` on.
pub open spec fn spec_self_metadata_list(advs: Seq<Metadata>, i: int, color: Color) -> Seq<
    LineModel,
>
    decreases advs.len() - i,
{
    if i < 0 || i >= advs.len() {
        Seq::empty()
    } else {
        spec_metadata_lines(advs[i], color) + spec_self_metadata_list(advs, i + 1, color)
    }
}

/// The whole self-advisory report: nothing when the list is empty; otherwise
/// the upgrade notice — at error severity exactly when the broad
/// deny-warnings selector is configured — then each advisory's metadata
/// block, then a blank line.
pub open spec fn spec_self_report_lines(advs: Seq<Metadata>, deny_warnings: bool) -> Seq<
    LineModel,
> {
    if advs.len() == 0 {
        Seq::empty()
    } else {
        let severity = if deny_warnings {
            Severity::Error
        } else {
            Severity::Warning
        };
        let color = if deny_warnings {
            Color::Red
        } else {
            Color::Yellow
        };
        seq![LineModel::Status { severity, label: None, message: spec_self_msg() }]
            + spec_self_metadata_list(advs, 0, color) + seq![LineModel::Blank]
    }
}

impl Presenter {
    /// The color warnings are displayed in: red when denied, yellow when
    /// allowed.
    pub fn warning_color(&self, deny_warning: bool) -> (c: Color)
        ensures
            c == if deny_warning {
                Color::Red
            } else {
                Color::Yellow
            },
    {
        if deny_warning {
            Color::Red
        } else {
            Color::Yellow
        }
    }

    /// The scan notice displayed before a report is generated, suppressed in
    /// quiet mode.
    pub fn before_report(&mut self, path: &String, package_count: u64) -> (r: Option<Line>)
        ensures
            *final(self) == *old(self),
            old(self).config.quiet ==> r is None,
            !old(self).config.quiet ==> (r matches Some(l) && l@ == (LineModel::Status {
                severity: Severity::Success,
                label: Some("Scanning"@),
                message: spec_scan_message(path@, package_count as int),
            })),
    {
        if self.is_quiet_config() {
            return None;
        }
        let mut m = path.clone();
        m.append(" for vulnerabilities (");
        let dec = u64_to_dec(package_count);
        m.append(dec.as_str());
        m.append(" crate dependencies)");
        Some(
            Line::Status {
                severity: Severity::Success,
                label: Some("Scanning".to_owned()),
                message: m,
            },
        )
    }

    /// Whether informational output is suppressed.
    fn is_quiet_config(&self) -> (r: bool)
        ensures
            r == self.config.quiet,
    {
        self.config.is_quiet()
    }

    /// The status line displayed before a scanned binary's report,
    /// suppressed in quiet mode: found data, an incompleteness warning, or
    /// an error when no dependency information exists at all.
    pub fn binary_scan_report(&mut self, outcome: &BinaryScanOutcome, path: &String) -> (r: Option<
        Line,
    >)
        ensures
            *final(self) == *old(self),
            old(self).config.quiet ==> r is None,
            !old(self).config.quiet ==> (r matches Some(l) && l@ == spec_binary_scan_line(
                *outcome,
                path@,
            )),
    {
        if self.is_quiet_config() {
            return None;
        }
        match outcome {
            BinaryScanOutcome::Complete { dependency_count } => {
                let mut m = "'cargo auditable' data in ".to_owned();
                m.append(path.as_str());
                m.append(" (");
                let dec = u64_to_dec(*dependency_count);
                m.append(dec.as_str());
                m.append(" dependencies)");
                Some(
                    Line::Status {
                        severity: Severity::Success,
                        label: Some("Found".to_owned()),
                        message: m,
                    },
                )
            },
            BinaryScanOutcome::Incomplete { recovered_count } => {
                let mut m = path.clone();
                m.append(" was not built with 'cargo auditable', the report will be incomplete (");
                let dec = u64_to_dec(*recovered_count);
                m.append(dec.as_str());
                m.append(" dependencies recovered)");
                Some(Line::Status { severity: Severity::Warning, label: None, message: m })
            },
            BinaryScanOutcome::NoInfo => {
                let mut m = "No dependency information found in ".to_owned();
                m.append(path.as_str());
                m.append("! Is it a Rust program built with cargo?");
                Some(Line::Status { severity: Severity::Error, label: None, message: m })
            },
        }
    }

    /// Prints the report of advisories that affect this tool itself: empty
    /// input yields no output; otherwise the upgrade notice, at error
    /// severity exactly when deny-warnings is configured, then each
    /// advisory's metadata block.
    pub fn print_self_report(&mut self, self_advisories: &Vec<Metadata>) -> (out: Vec<Line>)
        ensures
            *final(self) == *old(self),
            lines_view(out@) == spec_self_report_lines(
                self_advisories@,
                old(self).config.spec_deny_warnings(),
            ),
    {
        let mut out: Vec<Line> = Vec::new();
        if self_advisories.len() == 0 {
            proof {
                assert(lines_view(out@) =~= Seq::<LineModel>::empty());
            }
            return out;
        }
        let deny_warnings = self.config.denies_all_warnings();
        let severity = if deny_warnings {
            Severity::Error
        } else {
            Severity::Warning
        };
        let color = self.warning_color(deny_warnings);
        out.push(
            Line::Status {
                severity,
                label: None,
                message:
                    "This copy of cargo-audit has known advisories! Upgrade cargo-audit to the latest version: cargo install --force cargo-audit --locked".to_owned(),
            },
        );
        let ghost advs = self_advisories@;
        let ghost head = seq![
            LineModel::Status {
                severity: if deny_warnings {
                    Severity::Error
                } else {
                    Severity::Warning
                },
                label: None,
                message: spec_self_msg(),
            },
        ];
        proof {
            assert(lines_view(out@) =~= head);
        }
        let mut i: usize = 0;
        while i < self_advisories.len()
            invariant
                0 <= i <= advs.len(),
                advs == self_advisories@,
                color == if deny_warnings {
                    Color::Red
                } else {
                    Color::Yellow
                },
                lines_view(out@) + spec_self_metadata_list(advs, i as int, color) == head
                    + spec_self_metadata_list(advs, 0, color),
            decreases advs.len() - i,
        {
            let ghost pre = lines_view(out@);
            print_metadata(&mut out, &self_advisories[i], color);
            proof {
                assert((pre + spec_metadata_lines(advs[i as int], color))
                    + spec_self_metadata_list(advs, i as int + 1, color) =~= pre + (
                spec_metadata_lines(advs[i as int], color) + spec_self_metadata_list(
                    advs,
                    i as int + 1,
                    color,
                )));
            }
            i += 1;
        }
        let ghost body = lines_view(out@);
        out.push(Line::Blank);
        proof {
            assert(lines_view(out@) =~= body + seq![LineModel::Blank]);
            assert(body + spec_self_metadata_list(advs, i as int, color) =~= body);
            assert(lines_view(out@) =~= spec_self_report_lines(
                advs,
                old(self).config.spec_deny_warnings(),
            ));
        }
        out
    }
}

/// A metadata block holds attribute lines only: none prints at error
/// severity.
pub proof fn lemma_metadata_lines_no_error(m: Metadata, color: Color)
    ensures
        !has_error_status(spec_metadata_lines(m, color)),
{
    let ls = spec_metadata_lines(m, color);
    assert forall|i: int| 0 <= i < ls.len() implies !is_error_status(ls[i]) by {
        assert(ls[i] is Attr);
    }
}

/// A rendered dependency subtree holds tree lines only.
pub proof fn lemma_render_node_no_error(
    tree: &DependencyTree,
    node: int,
    depth: int,
    on_path: Seq<bool>,
)
    requires
        tree.wf(),
        0 <= node < tree.nodes@.len(),
        on_path.len() == tree.nodes@.len(),
        !on_path[node],
    ensures
        !has_error_status(tree.spec_render_node(node, depth, on_path)),
    decreases tree.nodes@.len() - crate::tree::count_marked(on_path), 0int, 0int,
{
    crate::tree::lemma_count_marked_update(on_path, node, true);
    crate::tree::lemma_count_marked_le_len(on_path.update(node, true));
    lemma_render_children_no_error(
        tree,
        tree.dependents@[node]@,
        0,
        depth,
        on_path.update(node, true),
    );
    let ls = tree.spec_render_node(node, depth, on_path);
    let head = seq![LineModel::TreeNode { depth, package: tree.nodes@[node]@ }];
    assert(!has_error_status(head)) by {
        assert(forall|i: int| 0 <= i < head.len() ==> !is_error_status(head[i]));
    }
    lemma_error_status_concat(
        head,
        tree.spec_render_children(tree.dependents@[node]@, 0, depth, on_path.update(node, true)),
    );
}

/// Rendered child subtrees hold tree lines only.
pub proof fn lemma_render_children_no_error(
    tree: &DependencyTree,
    children: Seq<usize>,
    c: int,
    depth: int,
    on_path: Seq<bool>,
)
    requires
        tree.wf(),
        on_path.len() == tree.nodes@.len(),
        forall|j: int| 0 <= j < children.len() ==> children[j] < tree.nodes@.len(),
    ensures
        !has_error_status(tree.spec_render_children(children, c, depth, on_path)),
    decreases tree.nodes@.len() - crate::tree::count_marked(on_path), 1int, children.len() - c,
{
    crate::tree::lemma_count_marked_le_len(on_path);
    if c < 0 || c >= children.len() {
    } else {
        lemma_render_children_no_error(tree, children, c + 1, depth, on_path);
        if !on_path[children[c] as int] {
            lemma_render_node_no_error(tree, children[c] as int, depth + 1, on_path);
            lemma_error_status_concat(
                tree.spec_render_node(children[c] as int, depth + 1, on_path),
                tree.spec_render_children(children, c + 1, depth, on_path),
            );
        }
    }
}

/// A dependency-path block never prints at error severity.
pub proof fn lemma_print_tree_no_error(
    d: Seq<PackageModel>,
    color: Color,
    pkg: Package,
    tree: &DependencyTree,
    show: bool,
)
    requires
        tree.wf(),
    ensures
        ({
            let (res, d2) = spec_print_tree(d, color, pkg, tree, show);
            res matches Ok(ls) ==> !has_error_status(ls)
        }),
{
    let (res, d2) = spec_print_tree(d, color, pkg, tree, show);
    if !d.contains(pkg@) && show {
        match tree.spec_lookup(pkg@) {
            Some(node) => {
                lemma_lookup_in_range(tree.nodes@, pkg@, 0);
                let empty_path = Seq::new(tree.nodes@.len(), |j: int| false);
                lemma_all_false_count(empty_path);
                lemma_render_node_no_error(tree, node, 0, empty_path);
                let head = seq![LineModel::TreeHeader { color }];
                assert(forall|i: int| 0 <= i < head.len() ==> !is_error_status(head[i]));
                assert(!has_error_status(head));
                lemma_error_status_concat(head, tree.spec_render_forest(node));
            },
            None => {},
        }
    } else {
        match res {
            Ok(ls) => {
                assert(ls =~= Seq::<LineModel>::empty());
                assert(!has_error_status(ls));
            },
            Err(_) => {},
        }
    }
}

/// A successful lookup position lies inside the node list.
pub proof fn lemma_lookup_in_range(nodes: Seq<Package>, k: PackageModel, i: int)
    ensures
        crate::tree::spec_lookup_from(nodes, k, i) matches Some(n) ==> i <= n < nodes.len(),
    decreases nodes.len() - i,
{
    if 0 <= i < nodes.len() && nodes[i]@ != k {
        lemma_lookup_in_range(nodes, k, i + 1);
    }
}

/// A marker sequence of all-false entries has no marks.
pub proof fn lemma_all_false_count(s: Seq<bool>)
    requires
        forall|j: int| 0 <= j < s.len() ==> !s[j],
    ensures
        crate::tree::count_marked(s) == 0,
    decreases s.len(),
{
    if s.len() > 0 {
        lemma_all_false_count(s.drop_last());
    }
}

/// A vulnerability block never prints at error severity.
pub proof fn lemma_print_vulnerability_no_error(
    d: Seq<PackageModel>,
    v: Vulnerability,
    tree: &DependencyTree,
    show: bool,
)
    requires
        tree.wf(),
    ensures
        ({
            let (res, d2) = spec_print_vulnerability(d, v, tree, show);
            res matches Ok(ls) ==> !has_error_status(ls)
        }),
{
    let head = seq![
        LineModel::Attr { color: Color::Red, label: "Crate:    "@, content: v.package.name@ },
        LineModel::Attr { color: Color::Red, label: "Version:  "@, content: v.package.version@ },
    ] + spec_metadata_lines(v.advisory, Color::Red) + spec_solution_lines(v);
    assert(!has_error_status(head)) by {
        assert(forall|i: int| 0 <= i < head.len() ==> head[i] is Attr);
        if has_error_status(head) {
            let i = choose|i: int| 0 <= i < head.len() && is_error_status(head[i]);
        }
    }
    let (tr, d2) = spec_print_tree(d, Color::Red, v.package, tree, show);
    lemma_print_tree_no_error(d, Color::Red, v.package, tree, show);
    match tr {
        Ok(tl) => {
            lemma_error_status_concat(head, tl);
            lemma_error_status_concat(head + tl, seq![LineModel::Blank]);
            assert(!is_error_status(LineModel::Blank));
            assert(!has_error_status(seq![LineModel::Blank])) by {
                if has_error_status(seq![LineModel::Blank]) {
                    let i = choose|i: int|
                        0 <= i < 1 && is_error_status(seq![LineModel::Blank][i]);
                }
            }
        },
        Err(_) => {},
    }
}

/// A warning block never prints at error severity.
pub proof fn lemma_print_warning_no_error(
    d: Seq<PackageModel>,
    w: Warning,
    denyset: Seq<WarningKind>,
    tree: &DependencyTree,
    show: bool,
)
    requires
        tree.wf(),
    ensures
        ({
            let (res, d2) = spec_print_warning(d, w, denyset, tree, show);
            res matches Ok(ls) ==> !has_error_status(ls)
        }),
{
    let color = if denyset.contains(w.kind) {
        Color::Red
    } else {
        Color::Yellow
    };
    let head = seq![
        LineModel::Attr { color, label: "Crate:    "@, content: w.package.name@ },
        LineModel::Attr { color, label: "Version:  "@, content: w.package.version@ },
        LineModel::Attr { color, label: "Warning:  "@, content: spec_kind_str(w.kind) },
    ] + (match w.advisory {
        Some(m) => spec_metadata_lines(m, color),
        None => Seq::<LineModel>::empty(),
    });
    assert(!has_error_status(head)) by {
        assert(forall|i: int| 0 <= i < head.len() ==> head[i] is Attr);
        if has_error_status(head) {
            let i = choose|i: int| 0 <= i < head.len() && is_error_status(head[i]);
        }
    }
    let (tr, d2) = spec_print_tree(d, color, w.package, tree, show);
    lemma_print_tree_no_error(d, color, w.package, tree, show);
    match tr {
        Ok(tl) => {
            lemma_error_status_concat(head, tl);
            lemma_error_status_concat(head + tl, seq![LineModel::Blank]);
            assert(!has_error_status(seq![LineModel::Blank])) by {
                if has_error_status(seq![LineModel::Blank]) {
                    let i = choose|i: int|
                        0 <= i < 1 && is_error_status(seq![LineModel::Blank][i]);
                }
            }
        },
        Err(_) => {},
    }
}

/// The vulnerability blocks never print at error severity.
pub proof fn lemma_vuln_list_no_error(
    d: Seq<PackageModel>,
    list: Seq<Vulnerability>,
    i: int,
    tree: &DependencyTree,
    show: bool,
)
    requires
        tree.wf(),
    ensures
        ({
            let (res, d2) = spec_print_vuln_list(d, list, i, tree, show);
            res matches Ok(ls) ==> !has_error_status(ls)
        }),
    decreases list.len() - i,
{
    if i < 0 || i >= list.len() {
    } else {
        let (r1, d1) = spec_print_vulnerability(d, list[i], tree, show);
        lemma_print_vulnerability_no_error(d, list[i], tree, show);
        match r1 {
            Ok(l1) => {
                lemma_vuln_list_no_error(d1, list, i + 1, tree, show);
                let (r2, d2) = spec_print_vuln_list(d1, list, i + 1, tree, show);
                match r2 {
                    Ok(l2) => {
                        lemma_error_status_concat(l1, l2);
                    },
                    Err(_) => {},
                }
            },
            Err(_) => {},
        }
    }
}

/// The warning blocks never print at error severity.
pub proof fn lemma_warning_list_no_error(
    d: Seq<PackageModel>,
    list: Seq<Warning>,
    i: int,
    denyset: Seq<WarningKind>,
    tree: &DependencyTree,
    show: bool,
)
    requires
        tree.wf(),
    ensures
        ({
            let (res, d2) = spec_print_warning_list(d, list, i, denyset, tree, show);
            res matches Ok(ls) ==> !has_error_status(ls)
        }),
    decreases list.len() - i,
{
    if i < 0 || i >= list.len() {
    } else {
        let (r1, d1) = spec_print_warning(d, list[i], denyset, tree, show);
        lemma_print_warning_no_error(d, list[i], denyset, tree, show);
        match r1 {
            Ok(l1) => {
                lemma_warning_list_no_error(d1, list, i + 1, denyset, tree, show);
                let (r2, d2) = spec_print_warning_list(d1, list, i + 1, denyset, tree, show);
                match r2 {
                    Ok(l2) => {
                        lemma_error_status_concat(l1, l2);
                    },
                    Err(_) => {},
                }
            },
            Err(_) => {},
        }
    }
}

/// The grouped warning blocks never print at error severity.
pub proof fn lemma_group_list_no_error(
    d: Seq<PackageModel>,
    groups: Seq<WarningGroup>,
    g: int,
    denyset: Seq<WarningKind>,
    tree: &DependencyTree,
    show: bool,
)
    requires
        tree.wf(),
    ensures
        ({
            let (res, d2) = spec_print_group_list(d, groups, g, denyset, tree, show);
            res matches Ok(ls) ==> !has_error_status(ls)
        }),
    decreases groups.len() - g,
{
    if g < 0 || g >= groups.len() {
    } else {
        let (r1, d1) = spec_print_warning_list(d, groups[g].warnings@, 0, denyset, tree, show);
        lemma_warning_list_no_error(d, groups[g].warnings@, 0, denyset, tree, show);
        match r1 {
            Ok(l1) => {
                lemma_group_list_no_error(d1, groups, g + 1, denyset, tree, show);
                let (r2, d2) = spec_print_group_list(d1, groups, g + 1, denyset, tree, show);
                match r2 {
                    Ok(l2) => {
                        lemma_error_status_concat(l1, l2);
                    },
                    Err(_) => {},
                }
            },
            Err(_) => {},
        }
    }
}

/// The aggregate lines hold an error-severity line exactly when the run must
/// fail: a vulnerability was found or some warning is denied.
pub proof fn lemma_aggregate_error_iff(
    report: Report,
    denyset: Seq<WarningKind>,
    path: Option<Seq<char>>,
)
    ensures
        has_error_status(spec_aggregate_lines(report, denyset, path)) == spec_should_fail(
            report,
            denyset,
        ),
{
    let nd = spec_denied_count(report.warnings@, denyset);
    let na = spec_allowed_count(report.warnings@, denyset);
    let a = if report.vulnerabilities.found {
        seq![
            LineModel::Status {
                severity: Severity::Error,
                label: None,
                message: spec_vuln_message(report.vulnerabilities.count as int, path),
            },
        ]
    } else {
        Seq::<LineModel>::empty()
    };
    let b = if nd > 0 {
        seq![
            LineModel::Status {
                severity: Severity::Error,
                label: None,
                message: spec_denied_message(nd, path),
            },
        ]
    } else {
        Seq::<LineModel>::empty()
    };
    let c = if na > 0 {
        seq![
            LineModel::Status {
                severity: Severity::Warning,
                label: None,
                message: spec_allowed_message(na, path),
            },
        ]
    } else {
        Seq::<LineModel>::empty()
    };
    lemma_error_status_concat(a, b);
    lemma_error_status_concat(a + b, c);
    if report.vulnerabilities.found {
        assert(is_error_status(a[0]));
        assert(has_error_status(a));
    } else if nd > 0 {
        assert(is_error_status(b[0]));
        assert(has_error_status(b));
    } else {
        assert(!has_error_status(a)) by {
            if has_error_status(a) {
                let i = choose|i: int| 0 <= i < a.len() && is_error_status(a[i]);
            }
        }
        assert(!has_error_status(b)) by {
            if has_error_status(b) {
                let i = choose|i: int| 0 <= i < b.len() && is_error_status(b[i]);
            }
        }
        assert(!has_error_status(c)) by {
            if has_error_status(c) {
                let i = choose|i: int| 0 <= i < c.len() && is_error_status(c[i]);
            }
        }
        lemma_count_upto_nonneg(report.warnings@, denyset, true, report.warnings@.len() as int);
    }
}

/// Denial consistency: a successfully printed report holds an
/// error-severity line exactly when the run must fail, so nothing prints at
/// error severity without failing and nothing fails without reporting why.
pub proof fn lemma_denial_consistency(
    d: Seq<PackageModel>,
    report: Report,
    denyset: Seq<WarningKind>,
    tree: &DependencyTree,
    show: bool,
    path: Option<Seq<char>>,
)
    requires
        tree.wf(),
    ensures
        ({
            let (res, d2) = spec_print_report(d, report, denyset, tree, show, path);
            res matches Ok(ls) ==> has_error_status(ls) == spec_should_fail(report, denyset)
        }),
{
    let (r1, d1) = spec_print_vuln_list(d, report.vulnerabilities.list@, 0, tree, show);
    lemma_vuln_list_no_error(d, report.vulnerabilities.list@, 0, tree, show);
    match r1 {
        Ok(l1) => {
            let (r2, d2) = spec_print_group_list(d1, report.warnings@, 0, denyset, tree, show);
            lemma_group_list_no_error(d1, report.warnings@, 0, denyset, tree, show);
            match r2 {
                Ok(l2) => {
                    let aggr = spec_aggregate_lines(report, denyset, path);
                    lemma_aggregate_error_iff(report, denyset, path);
                    lemma_error_status_concat(l1, l2);
                    lemma_error_status_concat(l1 + l2, aggr);
                },
                Err(_) => {},
            }
        },
        Err(_) => {},
    }
}

/// Dedup idempotence: once a package's dependency path has gone through the
/// renderer, rendering the same package again emits nothing and leaves the
/// displayed set unchanged, whatever the colors and display flags.
pub proof fn lemma_render_dedup_idempotent(
    d: Seq<PackageModel>,
    color1: Color,
    color2: Color,
    pkg: Package,
    tree: &DependencyTree,
    show1: bool,
    show2: bool,
)
    ensures
        ({
            let (r1, d1) = spec_print_tree(d, color1, pkg, tree, show1);
            let (r2, d2) = spec_print_tree(d1, color2, pkg, tree, show2);
            r2 == Result::<Seq<LineModel>, PackageModel>::Ok(Seq::<LineModel>::empty()) && d2
                == d1
        }),
{
    let (r1, d1) = spec_print_tree(d, color1, pkg, tree, show1);
    if d.contains(pkg@) {
        assert(d1 == d);
    } else {
        assert(d1 == d.push(pkg@));
        assert(d1[d.len() as int] == pkg@);
        assert(d1.contains(pkg@));
    }
}

/// Self-advisory gating: the self report prints at error severity exactly
/// when it is non-empty and the broad deny-warnings selector is configured —
/// the same condition under which the run fails on its own advisories.
pub proof fn lemma_self_report_consistency(advs: Seq<Metadata>, deny_warnings: bool)
    ensures
        has_error_status(spec_self_report_lines(advs, deny_warnings)) == (advs.len() > 0
            && deny_warnings),
{
    let ls = spec_self_report_lines(advs, deny_warnings);
    if advs.len() == 0 {
        assert(!has_error_status(ls)) by {
            if has_error_status(ls) {
                let i = choose|i: int| 0 <= i < ls.len() && is_error_status(ls[i]);
            }
        }
    } else {
        let color = if deny_warnings {
            Color::Red
        } else {
            Color::Yellow
        };
        let severity = if deny_warnings {
            Severity::Error
        } else {
            Severity::Warning
        };
        let head = seq![LineModel::Status { severity, label: None, message: spec_self_msg() }];
        let mid = spec_self_metadata_list(advs, 0, color);
        let tail = seq![LineModel::Blank];
        lemma_self_metadata_list_no_error(advs, 0, color);
        lemma_error_status_concat(head, mid);
        lemma_error_status_concat(head + mid, tail);
        assert(!has_error_status(tail)) by {
            if has_error_status(tail) {
                let i = choose|i: int| 0 <= i < tail.len() && is_error_status(tail[i]);
            }
        }
        if deny_warnings {
            assert(is_error_status(head[0]));
            assert(has_error_status(head));
        } else {
            assert(!has_error_status(head)) by {
                if has_error_status(head) {
                    let i = choose|i: int| 0 <= i < head.len() && is_error_status(head[i]);
                }
            }
        }
    }
}

/// Self-advisory metadata blocks never print at error severity.
pub proof fn lemma_self_metadata_list_no_error(advs: Seq<Metadata>, i: int, color: Color)
    ensures
        !has_error_status(spec_self_metadata_list(advs, i, color)),
    decreases advs.len() - i,
{
    if i < 0 || i >= advs.len() {
        let ls = spec_self_metadata_list(advs, i, color);
        assert(!has_error_status(ls)) by {
            if has_error_status(ls) {
                let j = choose|j: int| 0 <= j < ls.len() && is_error_status(ls[j]);
            }
        }
    } else {
        lemma_metadata_lines_no_error(advs[i], color);
        lemma_self_metadata_list_no_error(advs, i + 1, color);
        lemma_error_status_concat(
            spec_metadata_lines(advs[i], color),
            spec_self_metadata_list(advs, i + 1, color),
        );
    }
}

} // verus!
