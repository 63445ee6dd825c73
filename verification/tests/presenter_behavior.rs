use audit_core::config::{DenyOption, OutputConfig, OutputFormat, WarningKind};
use audit_core::lines::{Color, Line, Severity};
use audit_core::presenter::{BinaryScanOutcome, Presenter, PresentError, ReportOutput};
use audit_core::report::{
    License, Metadata, Package, Report, Vulnerability, VulnerabilityInfo, Warning, WarningGroup,
};
use audit_core::text::u64_to_dec;
use audit_core::tree::DependencyTree;

fn pkg(name: &str, version: &str) -> Package {
    Package { name: name.to_string(), version: version.to_string() }
}

fn metadata(id: &str, license: License, url: Option<&str>, id_url: Option<&str>) -> Metadata {
    Metadata {
        id: id.to_string(),
        title: "Example advisory title".to_string(),
        date: "2023-01-01".to_string(),
        package: "demo".to_string(),
        license,
        url: url.map(|s| s.to_string()),
        id_url: id_url.map(|s| s.to_string()),
        severity: None,
        collection: None,
    }
}

fn vulnerability(package: Package, patched: Vec<&str>) -> Vulnerability {
    Vulnerability {
        advisory: metadata("RUSTSEC-2023-0001", License::CcBy40, None, None),
        package,
        patched: patched.into_iter().map(|s| s.to_string()).collect(),
    }
}

fn single_node_tree(package: &Package) -> DependencyTree {
    DependencyTree {
        nodes: vec![pkg(&package.name, &package.version)],
        dependents: vec![vec![]],
    }
}

fn report_with_vulns(vulns: Vec<Vulnerability>) -> Report {
    let count = vulns.len() as u64;
    Report {
        vulnerabilities: VulnerabilityInfo { found: count > 0, count, list: vulns },
        warnings: vec![],
    }
}

fn config(deny: Vec<DenyOption>) -> OutputConfig {
    OutputConfig { format: OutputFormat::Terminal, deny, show_tree: None, quiet: false }
}

fn human_lines(out: ReportOutput) -> Vec<Line> {
    match out {
        ReportOutput::Human(lines) => lines,
        ReportOutput::MachineReadable => panic!("expected human output"),
    }
}

fn error_messages(lines: &[Line]) -> Vec<String> {
    let mut found = Vec::new();
    for line in lines {
        if let Line::Status { severity: Severity::Error, message, .. } = line {
            found.push(message.clone());
        }
    }
    found
}

#[test]
fn empty_deny_configuration_denies_nothing() {
    let presenter = Presenter::new(&config(vec![]));
    assert!(!presenter.is_denied_kind(WarningKind::Notice));
    assert!(!presenter.is_denied_kind(WarningKind::Unmaintained));
    assert!(!presenter.is_denied_kind(WarningKind::Unsound));
    assert!(!presenter.is_denied_kind(WarningKind::Yanked));
}

#[test]
fn deny_warnings_selector_denies_every_kind() {
    let presenter = Presenter::new(&config(vec![DenyOption::Warnings]));
    assert!(presenter.is_denied_kind(WarningKind::Notice));
    assert!(presenter.is_denied_kind(WarningKind::Unmaintained));
    assert!(presenter.is_denied_kind(WarningKind::Unsound));
    assert!(presenter.is_denied_kind(WarningKind::Yanked));
}

#[test]
fn narrow_deny_selector_denies_only_its_kind() {
    let presenter = Presenter::new(&config(vec![DenyOption::Unsound]));
    assert!(presenter.is_denied_kind(WarningKind::Unsound));
    assert!(!presenter.is_denied_kind(WarningKind::Unmaintained));
    assert!(!presenter.is_denied_kind(WarningKind::Yanked));
    assert!(!presenter.is_denied_kind(WarningKind::Notice));
}

#[test]
fn singular_vulnerability_message() {
    let package = pkg("vuln-crate", "1.0.0");
    let tree = single_node_tree(&package);
    let report = report_with_vulns(vec![vulnerability(pkg("vuln-crate", "1.0.0"), vec![])]);
    let mut presenter = Presenter::new(&config(vec![]));
    let lines = human_lines(presenter.print_report(&report, &tree, None).unwrap());
    let errors = error_messages(&lines);
    assert_eq!(errors, vec!["1 vulnerability found!".to_string()]);
}

#[test]
fn plural_vulnerability_message() {
    let package = pkg("vuln-crate", "1.0.0");
    let tree = single_node_tree(&package);
    let report = report_with_vulns(vec![
        vulnerability(pkg("vuln-crate", "1.0.0"), vec![]),
        vulnerability(pkg("vuln-crate", "1.0.0"), vec![]),
    ]);
    let mut presenter = Presenter::new(&config(vec![]));
    let lines = human_lines(presenter.print_report(&report, &tree, None).unwrap());
    let errors = error_messages(&lines);
    assert_eq!(errors, vec!["2 vulnerabilities found!".to_string()]);
}

#[test]
fn vulnerability_message_names_the_path() {
    let package = pkg("vuln-crate", "1.0.0");
    let tree = single_node_tree(&package);
    let report = report_with_vulns(vec![vulnerability(pkg("vuln-crate", "1.0.0"), vec![])]);
    let mut presenter = Presenter::new(&config(vec![]));
    let path = "Cargo.lock".to_string();
    let lines = human_lines(presenter.print_report(&report, &tree, Some(&path)).unwrap());
    let errors = error_messages(&lines);
    assert_eq!(errors, vec!["1 vulnerability found in Cargo.lock".to_string()]);
}

#[test]
fn dedup_same_package_renders_one_tree() {
    let package = pkg("vuln-crate", "1.0.0");
    let tree = single_node_tree(&package);
    let report = report_with_vulns(vec![
        vulnerability(pkg("vuln-crate", "1.0.0"), vec![]),
        vulnerability(pkg("vuln-crate", "1.0.0"), vec![]),
    ]);
    let mut presenter = Presenter::new(&config(vec![]));
    let lines = human_lines(presenter.print_report(&report, &tree, None).unwrap());
    let headers = lines
        .iter()
        .filter(|l| matches!(l, Line::TreeHeader { .. }))
        .count();
    assert_eq!(headers, 1);
}

#[test]
fn print_tree_second_call_is_a_no_op() {
    let package = pkg("dup", "0.1.0");
    let tree = single_node_tree(&package);
    let mut presenter = Presenter::new(&config(vec![]));
    let mut out: Vec<Line> = Vec::new();
    presenter.print_tree(&mut out, Color::Red, &package, &tree).unwrap();
    let after_first = out.len();
    assert!(after_first > 0);
    presenter.print_tree(&mut out, Color::Yellow, &package, &tree).unwrap();
    assert_eq!(out.len(), after_first);
}

#[test]
fn hidden_tree_still_marks_package_displayed() {
    let package = pkg("quiet", "0.1.0");
    let tree = single_node_tree(&package);
    let mut presenter = Presenter::new(&OutputConfig {
        format: OutputFormat::Terminal,
        deny: vec![],
        show_tree: Some(false),
        quiet: false,
    });
    let mut out: Vec<Line> = Vec::new();
    presenter.print_tree(&mut out, Color::Red, &package, &tree).unwrap();
    assert!(out.is_empty());
    assert_eq!(presenter.displayed_packages.len(), 1);
}

#[test]
fn missing_package_is_a_fatal_inconsistency() {
    let package = pkg("ghost", "0.0.1");
    let tree = DependencyTree { nodes: vec![], dependents: vec![] };
    let report = report_with_vulns(vec![vulnerability(package, vec![])]);
    let mut presenter = Presenter::new(&config(vec![]));
    let result = presenter.print_report(&report, &tree, None);
    match result {
        Err(PresentError::PackageNotInTree { package }) => {
            assert_eq!(package.name, "ghost");
        }
        _ => panic!("expected a missing-package error"),
    }
}

#[test]
fn machine_readable_format_short_circuits() {
    let package = pkg("vuln-crate", "1.0.0");
    let tree = single_node_tree(&package);
    let report = report_with_vulns(vec![vulnerability(pkg("vuln-crate", "1.0.0"), vec![])]);
    let mut presenter = Presenter::new(&OutputConfig {
        format: OutputFormat::Json,
        deny: vec![],
        show_tree: None,
        quiet: false,
    });
    let out = presenter.print_report(&report, &tree, None).unwrap();
    assert!(matches!(out, ReportOutput::MachineReadable));
}

#[test]
fn should_fail_on_found_vulnerability() {
    let presenter = Presenter::new(&config(vec![]));
    let report = report_with_vulns(vec![vulnerability(pkg("x", "1.0.0"), vec![])]);
    assert!(presenter.should_exit_with_failure(&report));
}

#[test]
fn should_not_fail_on_clean_report() {
    let presenter = Presenter::new(&config(vec![]));
    let report = report_with_vulns(vec![]);
    assert!(!presenter.should_exit_with_failure(&report));
}

#[test]
fn denied_warning_fails_and_allowed_does_not() {
    let warning = Warning {
        kind: WarningKind::Unmaintained,
        package: pkg("old", "0.1.0"),
        advisory: None,
    };
    let report = Report {
        vulnerabilities: VulnerabilityInfo { found: false, count: 0, list: vec![] },
        warnings: vec![WarningGroup { kind: WarningKind::Unmaintained, warnings: vec![warning] }],
    };
    let denying = Presenter::new(&config(vec![DenyOption::Unmaintained]));
    assert!(denying.should_exit_with_failure(&report));
    let allowing = Presenter::new(&config(vec![]));
    assert!(!allowing.should_exit_with_failure(&report));
}

#[test]
fn denial_consistency_with_printed_errors() {
    let warning = Warning {
        kind: WarningKind::Yanked,
        package: pkg("pulled", "0.2.0"),
        advisory: None,
    };
    let tree = single_node_tree(&pkg("pulled", "0.2.0"));
    let report = Report {
        vulnerabilities: VulnerabilityInfo { found: false, count: 0, list: vec![] },
        warnings: vec![WarningGroup { kind: WarningKind::Yanked, warnings: vec![warning] }],
    };
    let mut denying = Presenter::new(&config(vec![DenyOption::Yanked]));
    let fails = denying.should_exit_with_failure(&report);
    let lines = human_lines(denying.print_report(&report, &tree, None).unwrap());
    let errors = error_messages(&lines);
    assert!(fails);
    assert_eq!(errors, vec!["1 denied warning found!".to_string()]);

    let warning2 = Warning {
        kind: WarningKind::Yanked,
        package: pkg("pulled", "0.2.0"),
        advisory: None,
    };
    let report2 = Report {
        vulnerabilities: VulnerabilityInfo { found: false, count: 0, list: vec![] },
        warnings: vec![WarningGroup { kind: WarningKind::Yanked, warnings: vec![warning2] }],
    };
    let mut allowing = Presenter::new(&config(vec![]));
    let fails2 = allowing.should_exit_with_failure(&report2);
    let lines2 = human_lines(allowing.print_report(&report2, &tree, None).unwrap());
    assert!(!fails2);
    assert!(error_messages(&lines2).is_empty());
    let mut warn_statuses = 0;
    for line in &lines2 {
        if let Line::Status { severity: Severity::Warning, message, .. } = line {
            warn_statuses += 1;
            assert_eq!(message, "1 allowed warning found");
        }
    }
    assert_eq!(warn_statuses, 1);
}

#[test]
fn url_priority_cc_by_license_prefers_explicit_url() {
    let m = metadata(
        "RUSTSEC-2023-0002",
        License::CcBy40,
        Some("https://example.com/original"),
        Some("https://rustsec.org/advisories/RUSTSEC-2023-0002"),
    );
    assert_eq!(m.canonical_url().unwrap(), "https://example.com/original");
}

#[test]
fn url_priority_other_license_prefers_id_url() {
    let m = metadata(
        "RUSTSEC-2023-0003",
        License::Other,
        Some("https://example.com/original"),
        Some("https://rustsec.org/advisories/RUSTSEC-2023-0003"),
    );
    assert_eq!(
        m.canonical_url().unwrap(),
        "https://rustsec.org/advisories/RUSTSEC-2023-0003"
    );
}

#[test]
fn url_priority_falls_back_when_preferred_is_absent() {
    let cc = metadata(
        "RUSTSEC-2023-0004",
        License::CcBy40,
        None,
        Some("https://rustsec.org/advisories/RUSTSEC-2023-0004"),
    );
    assert_eq!(
        cc.canonical_url().unwrap(),
        "https://rustsec.org/advisories/RUSTSEC-2023-0004"
    );
    let other = metadata("CVE-2023-1234", License::Other, Some("https://example.com/x"), None);
    assert_eq!(other.canonical_url().unwrap(), "https://example.com/x");
    let none = metadata("GHSA-0000", License::Other, None, None);
    assert!(none.canonical_url().is_none());
}

#[test]
fn solution_line_joins_patched_versions() {
    let package = pkg("fixable", "0.9.0");
    let tree = single_node_tree(&package);
    let report = report_with_vulns(vec![vulnerability(
        pkg("fixable", "0.9.0"),
        vec!["1.2.3", "2.0.0"],
    )]);
    let mut presenter = Presenter::new(&config(vec![]));
    let lines = human_lines(presenter.print_report(&report, &tree, None).unwrap());
    let mut solution = None;
    for line in &lines {
        if let Line::Attr { label, content, .. } = line {
            if label == "Solution: " {
                solution = Some(content.clone());
            }
        }
    }
    assert_eq!(solution.unwrap(), "Upgrade to 1.2.3 OR 2.0.0");
}

#[test]
fn solution_line_reports_no_fix() {
    let package = pkg("stuck", "0.9.0");
    let tree = single_node_tree(&package);
    let report = report_with_vulns(vec![vulnerability(pkg("stuck", "0.9.0"), vec![])]);
    let mut presenter = Presenter::new(&config(vec![]));
    let lines = human_lines(presenter.print_report(&report, &tree, None).unwrap());
    let mut solution = None;
    for line in &lines {
        if let Line::Attr { label, content, .. } = line {
            if label == "Solution: " {
                solution = Some(content.clone());
            }
        }
    }
    assert_eq!(solution.unwrap(), "No fixed upgrade is available!");
}

#[test]
fn self_report_empty_is_silent_and_never_fails() {
    let mut denying = Presenter::new(&config(vec![DenyOption::Warnings]));
    assert!(denying.print_self_report(&vec![]).is_empty());
    assert!(!denying.should_exit_with_failure_due_to_self(&vec![]));
    let mut allowing = Presenter::new(&config(vec![]));
    assert!(allowing.print_self_report(&vec![]).is_empty());
    assert!(!allowing.should_exit_with_failure_due_to_self(&vec![]));
}

#[test]
fn self_report_gates_on_deny_warnings() {
    let advisory = metadata("RUSTSEC-2023-0005", License::Other, None, None);
    let advisories = vec![advisory];

    let mut denying = Presenter::new(&config(vec![DenyOption::Warnings]));
    assert!(denying.should_exit_with_failure_due_to_self(&advisories));
    let lines = denying.print_self_report(&advisories);
    assert!(matches!(
        lines[0],
        Line::Status { severity: Severity::Error, .. }
    ));

    let mut allowing = Presenter::new(&config(vec![DenyOption::Yanked]));
    assert!(!allowing.should_exit_with_failure_due_to_self(&advisories));
    let lines = allowing.print_self_report(&advisories);
    assert!(matches!(
        lines[0],
        Line::Status { severity: Severity::Warning, .. }
    ));
}

#[test]
fn tree_renders_incoming_dependents() {
    // c depends on b, b depends on a: incoming edges from a reach b then c.
    let tree = DependencyTree {
        nodes: vec![pkg("a", "1.0.0"), pkg("b", "1.0.0"), pkg("c", "1.0.0")],
        dependents: vec![vec![1], vec![2], vec![]],
    };
    let mut out: Vec<Line> = Vec::new();
    tree.render_forest(0, &mut out);
    let rendered: Vec<(u64, String)> = out
        .iter()
        .map(|l| match l {
            Line::TreeNode { depth, package } => (*depth, package.name.clone()),
            _ => panic!("expected only tree nodes"),
        })
        .collect();
    assert_eq!(
        rendered,
        vec![
            (0, "a".to_string()),
            (1, "b".to_string()),
            (2, "c".to_string())
        ]
    );
}

#[test]
fn tree_traversal_terminates_on_cycles() {
    let tree = DependencyTree {
        nodes: vec![pkg("a", "1.0.0"), pkg("b", "1.0.0")],
        dependents: vec![vec![1], vec![0]],
    };
    let mut out: Vec<Line> = Vec::new();
    tree.render_forest(0, &mut out);
    assert_eq!(out.len(), 2);
}

#[test]
fn before_report_respects_quiet() {
    let mut loud = Presenter::new(&config(vec![]));
    let line = loud.before_report(&"Cargo.lock".to_string(), 42).unwrap();
    match line {
        Line::Status { severity: Severity::Success, label, message } => {
            assert_eq!(label.unwrap(), "Scanning");
            assert_eq!(message, "Cargo.lock for vulnerabilities (42 crate dependencies)");
        }
        _ => panic!("expected a status line"),
    }
    let mut quiet = Presenter::new(&OutputConfig {
        format: OutputFormat::Terminal,
        deny: vec![],
        show_tree: None,
        quiet: true,
    });
    assert!(quiet.before_report(&"Cargo.lock".to_string(), 42).is_none());
}

#[test]
fn binary_scan_report_messages() {
    let mut presenter = Presenter::new(&config(vec![]));
    let path = "target/app".to_string();

    let line = presenter
        .binary_scan_report(&BinaryScanOutcome::Complete { dependency_count: 5 }, &path)
        .unwrap();
    match line {
        Line::Status { severity: Severity::Success, label, message } => {
            assert_eq!(label.unwrap(), "Found");
            assert_eq!(message, "'cargo auditable' data in target/app (5 dependencies)");
        }
        _ => panic!("expected a success status"),
    }

    let line = presenter
        .binary_scan_report(&BinaryScanOutcome::Incomplete { recovered_count: 3 }, &path)
        .unwrap();
    match line {
        Line::Status { severity: Severity::Warning, message, .. } => {
            assert_eq!(
                message,
                "target/app was not built with 'cargo auditable', the report will be incomplete (3 dependencies recovered)"
            );
        }
        _ => panic!("expected a warning status"),
    }

    let line = presenter.binary_scan_report(&BinaryScanOutcome::NoInfo, &path).unwrap();
    match line {
        Line::Status { severity: Severity::Error, message, .. } => {
            assert_eq!(
                message,
                "No dependency information found in target/app! Is it a Rust program built with cargo?"
            );
        }
        _ => panic!("expected an error status"),
    }

    let mut quiet = Presenter::new(&OutputConfig {
        format: OutputFormat::Terminal,
        deny: vec![],
        show_tree: None,
        quiet: true,
    });
    assert!(quiet.binary_scan_report(&BinaryScanOutcome::NoInfo, &path).is_none());
}

#[test]
fn self_report_message_text() {
    let advisory = metadata("RUSTSEC-2023-0006", License::Other, None, None);
    let mut presenter = Presenter::new(&config(vec![]));
    let lines = presenter.print_self_report(&vec![advisory]);
    match &lines[0] {
        Line::Status { message, .. } => {
            assert_eq!(
                message,
                "This copy of cargo-audit has known advisories! Upgrade cargo-audit to the latest version: cargo install --force cargo-audit --locked"
            );
        }
        _ => panic!("expected a status line"),
    }
    assert!(matches!(lines.last().unwrap(), Line::Blank));
}

#[test]
fn severity_attribute_is_shown_when_present() {
    let package = pkg("scored", "1.0.0");
    let tree = single_node_tree(&package);
    let mut advisory = metadata("RUSTSEC-2023-0007", License::Other, None, None);
    advisory.severity = Some("9.8 (critical)".to_string());
    let vuln = Vulnerability { advisory, package: pkg("scored", "1.0.0"), patched: vec![] };
    let report = report_with_vulns(vec![vuln]);
    let mut presenter = Presenter::new(&config(vec![]));
    let lines = human_lines(presenter.print_report(&report, &tree, None).unwrap());
    let mut severity = None;
    for line in &lines {
        if let Line::Attr { label, content, .. } = line {
            if label == "Severity: " {
                severity = Some(content.clone());
            }
        }
    }
    assert_eq!(severity.unwrap(), "9.8 (critical)");
}

#[test]
fn decimal_rendering_is_exact() {
    assert_eq!(u64_to_dec(0), "0");
    assert_eq!(u64_to_dec(7), "7");
    assert_eq!(u64_to_dec(10), "10");
    assert_eq!(u64_to_dec(1234567890), "1234567890");
}

#[test]
fn warning_word_is_singular_only_for_one() {
    let presenter = Presenter::new(&config(vec![]));
    assert_eq!(presenter.warning_word(0), "warnings");
    assert_eq!(presenter.warning_word(1), "warning");
    assert_eq!(presenter.warning_word(2), "warnings");
}
