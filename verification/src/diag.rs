//! The diagnostic collector: a full walk of the concrete syntax tree
//! that reports every error-flagged node and never aborts.

use vstd::prelude::*;

verus! {

use crate::cst::CstModel;
use crate::cst::CstNode;
use crate::cst::nodes_view;
use crate::strutil::dec_str;
use crate::strutil::usize_to_string;
use vstd::string::StringExecFns;

broadcast use vstd::std_specs::vec::axiom_vec_index_decreases, vstd::seq::axiom_seq_index_decreases;

/// Severity levels of collected diagnostics.
#[derive(Debug, Clone, Copy, PartialEq, Eq, Structural)]
pub enum Severity {
    /// Invalid syntax.
    Error,
    /// Suspicious but acceptable input.
    Warning,
    /// Neutral information.
    Info,
    /// A gentle suggestion.
    Hint,
}

/// A byte range with zero-based row/column end points.
#[derive(Debug, Clone, Copy)]
pub struct SourceLocation {
    /// First byte of the range.
    pub start_byte: usize,
    /// One past the last byte of the range.
    pub end_byte: usize,
    /// Zero-based (row, column) of the range's start.
    pub start_position: (usize, usize),
    /// Zero-based (row, column) of the range's end.
    pub end_position: (usize, usize),
}

impl PartialEq for SourceLocation {
    fn eq(&self, other: &SourceLocation) -> (r: bool) {
        self.start_byte == other.start_byte && self.end_byte == other.end_byte
            && self.start_position.0 == other.start_position.0 && self.start_position.1
            == other.start_position.1 && self.end_position.0 == other.end_position.0
            && self.end_position.1 == other.end_position.1
    }
}

impl Eq for SourceLocation {

}

impl vstd::std_specs::cmp::PartialEqSpecImpl for SourceLocation {
    open spec fn obeys_eq_spec() -> bool {
        true
    }

    open spec fn eq_spec(&self, other: &SourceLocation) -> bool {
        self.start_byte == other.start_byte && self.end_byte == other.end_byte
            && self.start_position == other.start_position && self.end_position
            == other.end_position
    }
}

/// A collected diagnostic: severity, message and place.
#[derive(Debug, Clone)]
pub struct Diagnostic {
    /// How grave the finding is.
    pub severity: Severity,
    /// The human-readable message.
    pub message: String,
    /// Where in the source the finding lies.
    pub location: SourceLocation,
}

/// The mathematical value of a `Diagnostic`.
#[verifier::ext_equal]
pub struct DiagnosticModel {
    pub severity: Severity,
    pub message: Seq<char>,
    pub start_byte: int,
    pub end_byte: int,
    pub start_row: int,
    pub start_col: int,
    pub end_row: int,
    pub end_col: int,
}

impl Diagnostic {
    /// The mathematical value of this diagnostic.
    pub open spec fn model(&self) -> DiagnosticModel {
        DiagnosticModel {
            severity: self.severity,
            message: self.message@,
            start_byte: self.location.start_byte as int,
            end_byte: self.location.end_byte as int,
            start_row: self.location.start_position.0 as int,
            start_col: self.location.start_position.1 as int,
            end_row: self.location.end_position.0 as int,
            end_col: self.location.end_position.1 as int,
        }
    }
}

impl View for Diagnostic {
    type V = DiagnosticModel;

    open spec fn view(&self) -> DiagnosticModel {
        self.model()
    }
}

/// The views of a vector of diagnostics.
pub open spec fn diags_view(v: Vec<Diagnostic>) -> Seq<DiagnosticModel> {
    Seq::new(
        v.len() as nat,
        |i: int|
            if 0 <= i < v.len() {
                v[i]@
            } else {
                arbitrary()
            },
    )
}

/// The message an error-flagged node yields.
pub open spec fn error_message_of(m: CstModel) -> Seq<char> {
    "Syntax error at "@ + dec_str(m.start_row as nat) + "-"@ + dec_str(m.start_col as nat)
}

/// The diagnostics one node yields for itself: one error entry when the
/// engine flagged it, and none otherwise.
pub open spec fn own_diags(m: CstModel) -> Seq<DiagnosticModel> {
    if m.error {
        seq![
            DiagnosticModel {
                severity: Severity::Error,
                message: error_message_of(m),
                start_byte: m.start_byte,
                end_byte: m.end_byte,
                start_row: m.start_row,
                start_col: m.start_col,
                end_row: m.end_row,
                end_col: m.end_col,
            },
        ]
    } else {
        Seq::empty()
    }
}

/// Every diagnostic in a subtree, the node's own first, then each
/// child's in document order.
pub open spec fn collect_model(m: CstModel) -> Seq<DiagnosticModel>
    decreases m, 1nat,
{
    own_diags(m) + collect_seq(m.children, 0)
}

/// The diagnostics of the subtrees of `s[i..]`.
pub open spec fn collect_seq(s: Seq<CstModel>, i: int) -> Seq<DiagnosticModel>
    decreases s, 0nat, s.len() - i,
{
    if i < 0 || i >= s.len() {
        Seq::empty()
    } else {
        collect_model(s[i]) + collect_seq(s, i + 1)
    }
}

/// Builds the diagnostic an error-flagged node yields.
fn error_diag_of(n: &CstNode) -> (r: Diagnostic)
    ensures
        n@.error ==> own_diags(n@) == seq![r@],
{
    let mut msg = String::new();
    msg.append("Syntax error at ");
    let rs = usize_to_string(n.start_row);
    msg.append(rs.as_str());
    msg.append("-");
    let cs = usize_to_string(n.start_col);
    msg.append(cs.as_str());
    proof {
        assert(msg@ =~= error_message_of(n@));
    }
    Diagnostic {
        severity: Severity::Error,
        message: msg,
        location: SourceLocation {
            start_byte: n.start_byte,
            end_byte: n.end_byte,
            start_position: (n.start_row, n.start_col),
            end_position: (n.end_row, n.end_col),
        },
    }
}

/// Walks a subtree and gathers a diagnostic for every error-flagged
/// node; the walk visits each node once and never fails.
pub fn collect_errors(n: &CstNode) -> (r: Vec<Diagnostic>)
    ensures
        diags_view(r) == collect_model(n@),
    decreases *n, 1nat,
{
    let mut out: Vec<Diagnostic> = Vec::new();
    if n.error {
        out.push(error_diag_of(n));
    }
    proof {
        crate::cst::lemma_children_view(n);
        assert(diags_view(out) =~= own_diags(n@));
    }
    let rest = collect_from(&n.children, 0);
    let ghost out_before = out@;
    let ghost restm = diags_view(rest);
    let mut tail = rest;
    let ghost tail_before = tail@;
    out.append(&mut tail);
    proof {
        assert forall|k: int|
            0 <= k < out@.len() implies #[trigger] diags_view(out)[k] == (own_diags(n@)
            + collect_seq(n@.children, 0))[k] by {
            assert(diags_view(out)[k] == out@[k]@);
            if k < out_before.len() {
                assert(out@[k] == out_before[k]);
                assert(own_diags(n@)[k] == out_before[k]@);
            } else {
                let j = k - out_before.len();
                assert(out@[k] == tail_before[j]);
                assert(restm[j] == tail_before[j]@);
            }
        }
        assert(diags_view(out) =~= own_diags(n@) + collect_seq(n@.children, 0));
    }
    out
}

/// Gathers the diagnostics of the subtrees of `children[i..]`.
fn collect_from(children: &Vec<CstNode>, i: usize) -> (r: Vec<Diagnostic>)
    ensures
        diags_view(r) == collect_seq(nodes_view(*children), i as int),
    decreases *children, 0nat, children@.len() - i,
{
    if i >= children.len() {
        let v: Vec<Diagnostic> = Vec::new();
        proof {
            assert(diags_view(v) =~= Seq::<DiagnosticModel>::empty());
        }
        return v;
    }
    proof {
        assert(nodes_view(*children)[i as int] == children[i as int]@);
    }
    let mut here = collect_errors(&children[i]);
    let ghost herem = diags_view(here);
    let rest = collect_from(children, i + 1);
    let ghost restm = diags_view(rest);
    let ghost here_before = here@;
    let mut tail = rest;
    let ghost tail_before = tail@;
    here.append(&mut tail);
    proof {
        assert forall|k: int|
            0 <= k < here@.len() implies #[trigger] diags_view(here)[k] == (collect_model(
            nodes_view(*children)[i as int],
        ) + collect_seq(nodes_view(*children), i + 1))[k] by {
            assert(diags_view(here)[k] == here@[k]@);
            if k < here_before.len() {
                assert(here@[k] == here_before[k]);
                assert(herem[k] == here_before[k]@);
            } else {
                let j = k - here_before.len();
                assert(here@[k] == tail_before[j]);
                assert(restm[j] == tail_before[j]@);
            }
        }
        assert(diags_view(here) =~= collect_model(nodes_view(*children)[i as int]) + collect_seq(
            nodes_view(*children),
            i + 1,
        ));
    }
    here
}

} // verus!
