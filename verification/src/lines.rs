//! The presenter's output, modeled as data: a sequence of display lines with
//! severity and color hints. Emitting the text (and degrading color to plain
//! text) is left to the caller at the process boundary.

use vstd::prelude::*;
use crate::report::{Package, PackageModel, opt_string_view};

verus! {

/// Severity tier of a status line.
#[derive(Clone, Copy, PartialEq, Eq, Structural, Debug)]
pub enum Severity {
    /// Informational success.
    Success,
    /// A finding that is allowed under the configured policy.
    Warning,
    /// A failure: whatever prints at this tier must fail the run.
    Error,
}

/// Color hint for attribute lines; a display may ignore it.
#[derive(Clone, Copy, PartialEq, Eq, Structural, Debug)]
pub enum Color {
    Red,
    Yellow,
}

/// One line of presenter output.
#[derive(Debug)]
pub enum Line {
    /// An aggregate status line, optionally with a bold label.
    Status { severity: Severity, label: Option<String>, message: String },
    /// One attribute of a finding, e.g. its title or date.
    Attr { color: Color, label: String, content: String },
    /// Heading that precedes a rendered dependency tree.
    TreeHeader { color: Color },
    /// One node of an inverse dependency tree, at its nesting depth.
    TreeNode { depth: u64, package: Package },
    /// A separating blank line.
    Blank,
}

/// Mathematical content of one output line.
pub ghost enum LineModel {
    Status { severity: Severity, label: Option<Seq<char>>, message: Seq<char> },
    Attr { color: Color, label: Seq<char>, content: Seq<char> },
    TreeHeader { color: Color },
    TreeNode { depth: int, package: PackageModel },
    Blank,
}

impl View for Line {
    type V = LineModel;

    open spec fn view(&self) -> LineModel {
        match self {
            Line::Status { severity, label, message } => LineModel::Status {
                severity: *severity,
                label: opt_string_view(*label),
                message: message@,
            },
            Line::Attr { color, label, content } => LineModel::Attr {
                color: *color,
                label: label@,
                content: content@,
            },
            Line::TreeHeader { color } => LineModel::TreeHeader { color: *color },
            Line::TreeNode { depth, package } => LineModel::TreeNode {
                depth: *depth as int,
                package: package@,
            },
            Line::Blank => LineModel::Blank,
        }
    }
}

/// Views of a sequence of output lines.
pub open spec fn lines_view(s: Seq<Line>) -> Seq<LineModel> {
    s.map_values(|l: Line| l@)
}

/// Whether a line prints at error severity.
pub open spec fn is_error_status(m: LineModel) -> bool {
    m matches LineModel::Status { severity: Severity::Error, .. }
}

/// Whether any line of the output prints at error severity.
pub open spec fn has_error_status(s: Seq<LineModel>) -> bool {
    exists|i: int| 0 <= i < s.len() && is_error_status(s[i])
}

/// Error severity in a concatenation comes from one of the two halves.
pub proof fn lemma_error_status_concat(a: Seq<LineModel>, b: Seq<LineModel>)
    ensures
        has_error_status(a + b) == (has_error_status(a) || has_error_status(b)),
{
    if has_error_status(a) {
        let i = choose|i: int| 0 <= i < a.len() && is_error_status(a[i]);
        assert(is_error_status((a + b)[i]));
    } else if has_error_status(b) {
        let i = choose|i: int| 0 <= i < b.len() && is_error_status(b[i]);
        assert(is_error_status((a + b)[a.len() + i]));
    } else {
        if has_error_status(a + b) {
            let i = choose|i: int| 0 <= i < (a + b).len() && is_error_status((a + b)[i]);
            if i < a.len() {
                assert(is_error_status(a[i]));
            } else {
                assert(is_error_status(b[i - a.len()]));
            }
        }
    }
}

} // verus!
