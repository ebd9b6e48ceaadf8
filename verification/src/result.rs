//! Parse results: the engine's tree with its source, diagnostics and
//! optional statistics, bundled as one value.

use vstd::prelude::*;

verus! {

use crate::ast::Expression;
use crate::ast::SourceLocation;
use crate::cst::CstModel;
use crate::cst::CstNode;
use crate::cst::find_field;
use crate::cst::model_count;
use crate::cst::nodes_view;
use crate::error::ParseError;
use crate::lower::lower_node;
use crate::lower::lower_err_model;
use crate::strutil::dec_str;
use crate::strutil::usize_to_string;
use vstd::string::StringExecFns;
use vstd::string::StringSliceAdditionalSpecFns;

broadcast use vstd::std_specs::vec::axiom_vec_index_decreases, vstd::seq::axiom_seq_index_decreases;

/// Severity levels for parse diagnostics.
#[derive(Debug, Clone, Copy, PartialEq, Eq, Hash, Structural)]
pub enum DiagnosticSeverity {
    /// Neutral information.
    Info,
    /// Suspicious but acceptable input.
    Warning,
    /// Invalid syntax.
    Error,
}

/// The name of each severity level.
pub open spec fn severity_name(s: DiagnosticSeverity) -> Seq<char> {
    match s {
        DiagnosticSeverity::Info => "info"@,
        DiagnosticSeverity::Warning => "warning"@,
        DiagnosticSeverity::Error => "error"@,
    }
}

impl DiagnosticSeverity {
    /// The level's name.
    pub fn as_str(self) -> (r: &'static str)
        ensures
            r@ == severity_name(self),
    {
        match self {
            DiagnosticSeverity::Info => "info",
            DiagnosticSeverity::Warning => "warning",
            DiagnosticSeverity::Error => "error",
        }
    }
}

/// A diagnostic produced while parsing.
#[derive(Debug, PartialEq, Eq)]
pub struct ParseDiagnostic {
    /// How grave the finding is.
    pub severity: DiagnosticSeverity,
    /// Where in the source the finding lies.
    pub location: SourceLocation,
    /// The human-readable message.
    pub message: String,
    /// An optional machine-readable code.
    pub code: Option<String>,
    /// The component that raised the finding.
    pub source: Option<String>,
}

/// The mathematical value of a `ParseDiagnostic`.
#[verifier::ext_equal]
pub struct PDiagModel {
    pub severity: DiagnosticSeverity,
    pub line: int,
    pub column: int,
    pub start_byte: int,
    pub end_byte: int,
    pub message: Seq<char>,
    pub code: Option<Seq<char>>,
    pub source: Option<Seq<char>>,
}

impl ParseDiagnostic {
    /// The mathematical value of this diagnostic.
    pub open spec fn model(&self) -> PDiagModel {
        PDiagModel {
            severity: self.severity,
            line: self.location.line as int,
            column: self.location.column as int,
            start_byte: self.location.start_byte as int,
            end_byte: self.location.end_byte as int,
            message: self.message@,
            code: match &self.code {
                Some(c) => Some(c@),
                None => None,
            },
            source: match &self.source {
                Some(s) => Some(s@),
                None => None,
            },
        }
    }
}

impl View for ParseDiagnostic {
    type V = PDiagModel;

    open spec fn view(&self) -> PDiagModel {
        self.model()
    }
}

impl Clone for ParseDiagnostic {
    /// Clones the diagnostic, keeping its mathematical value.
    fn clone(&self) -> (res: Self)
        ensures
            res@ == self@,
    {
        ParseDiagnostic {
            severity: self.severity,
            location: self.location,
            message: self.message.clone(),
            code: match &self.code {
                Some(c) => Some(c.clone()),
                None => None,
            },
            source: match &self.source {
                Some(s) => Some(s.clone()),
                None => None,
            },
        }
    }
}

/// The component tag this library stamps on its own diagnostics.
fn library_source_tag() -> (r: String)
    ensures
        r@ == "nix-parser"@,
{
    String::from_str("nix-parser")
}

impl ParseDiagnostic {
    /// Builds an error diagnostic at the given place.
    pub fn error(location: SourceLocation, message: String) -> (r: ParseDiagnostic)
        ensures
            r@ == (PDiagModel {
                severity: DiagnosticSeverity::Error,
                line: location.line as int,
                column: location.column as int,
                start_byte: location.start_byte as int,
                end_byte: location.end_byte as int,
                message: message@,
                code: None,
                source: Some("nix-parser"@),
            }),
    {
        ParseDiagnostic {
            severity: DiagnosticSeverity::Error,
            location,
            message,
            code: None,
            source: Some(library_source_tag()),
        }
    }

    /// Builds a warning diagnostic at the given place.
    pub fn warning(location: SourceLocation, message: String) -> (r: ParseDiagnostic)
        ensures
            r@ == (PDiagModel {
                severity: DiagnosticSeverity::Warning,
                line: location.line as int,
                column: location.column as int,
                start_byte: location.start_byte as int,
                end_byte: location.end_byte as int,
                message: message@,
                code: None,
                source: Some("nix-parser"@),
            }),
    {
        ParseDiagnostic {
            severity: DiagnosticSeverity::Warning,
            location,
            message,
            code: None,
            source: Some(library_source_tag()),
        }
    }

    /// Builds an informational diagnostic at the given place.
    pub fn info(location: SourceLocation, message: String) -> (r: ParseDiagnostic)
        ensures
            r@ == (PDiagModel {
                severity: DiagnosticSeverity::Info,
                line: location.line as int,
                column: location.column as int,
                start_byte: location.start_byte as int,
                end_byte: location.end_byte as int,
                message: message@,
                code: None,
                source: Some("nix-parser"@),
            }),
    {
        ParseDiagnostic {
            severity: DiagnosticSeverity::Info,
            location,
            message,
            code: None,
            source: Some(library_source_tag()),
        }
    }

    /// Sets the diagnostic's code.
    pub fn with_code(self, code: String) -> (r: ParseDiagnostic)
        ensures
            r@ == (PDiagModel { code: Some(code@), ..self@ }),
    {
        let mut d = self;
        d.code = Some(code);
        proof {
            assert(d@ =~= (PDiagModel { code: Some(code@), ..self@ }));
        }
        d
    }

    /// Sets the diagnostic's source tag.
    pub fn with_source(self, source: String) -> (r: ParseDiagnostic)
        ensures
            r@ == (PDiagModel { source: Some(source@), ..self@ }),
    {
        let mut d = self;
        d.source = Some(source);
        proof {
            assert(d@ =~= (PDiagModel { source: Some(source@), ..self@ }));
        }
        d
    }
}

/// The views of a vector of parse diagnostics.
pub open spec fn pdiags_view(v: Vec<ParseDiagnostic>) -> Seq<PDiagModel> {
    Seq::new(
        v.len() as nat,
        |i: int|
            if 0 <= i < v.len() {
                v[i]@
            } else {
                arbitrary()
            },
    )
}

/// A row number capped at the machine limit, one-based.
pub open spec fn one_based(x: int) -> int {
    if x + 1 <= usize::MAX {
        x + 1
    } else {
        usize::MAX as int
    }
}

/// The message an error-flagged node yields: it embeds the offending
/// source slice, or a marker when the slice is not valid text.
pub open spec fn syntax_error_message_of(m: CstModel) -> Seq<char> {
    match m.text {
        Some(t) => "Syntax error near: '"@ + t + "'"@,
        None => "Syntax error near: '"@ + "<invalid UTF-8>"@ + "'"@,
    }
}

/// The diagnostics one node yields for itself: an error entry when the
/// engine flagged it, then a missing entry when the engine inserted it.
pub open spec fn own_pdiags(m: CstModel) -> Seq<PDiagModel> {
    let err_part: Seq<PDiagModel> = if m.error {
        seq![
            PDiagModel {
                severity: DiagnosticSeverity::Error,
                line: one_based(m.start_row),
                column: one_based(m.start_col),
                start_byte: m.start_byte,
                end_byte: m.end_byte,
                message: syntax_error_message_of(m),
                code: Some("syntax_error"@),
                source: Some("nix-parser"@),
            },
        ]
    } else {
        Seq::empty()
    };
    let missing_part: Seq<PDiagModel> = if m.missing {
        seq![
            PDiagModel {
                severity: DiagnosticSeverity::Error,
                line: one_based(m.start_row),
                column: one_based(m.start_col),
                start_byte: m.start_byte,
                end_byte: m.end_byte,
                message: "Missing: "@ + m.kind,
                code: Some("missing_node"@),
                source: Some("nix-parser"@),
            },
        ]
    } else {
        Seq::empty()
    };
    err_part + missing_part
}

/// Every diagnostic in a subtree, the node's own first, then each
/// child's in document order.
pub open spec fn collect_pdiags(m: CstModel) -> Seq<PDiagModel>
    decreases m, 1nat,
{
    own_pdiags(m) + collect_pdiags_seq(m.children, 0)
}

/// The diagnostics of the subtrees of `s[i..]`.
pub open spec fn collect_pdiags_seq(s: Seq<CstModel>, i: int) -> Seq<PDiagModel>
    decreases s, 0nat, s.len() - i,
{
    if i < 0 || i >= s.len() {
        Seq::empty()
    } else {
        collect_pdiags(s[i]) + collect_pdiags_seq(s, i + 1)
    }
}

/// Builds the location a node's diagnostics carry.
fn location_of(n: &CstNode) -> (r: SourceLocation)
    ensures
        r.start_byte == n@.start_byte,
        r.end_byte == n@.end_byte,
        r.line as int == one_based(n@.start_row),
        r.column as int == one_based(n@.start_col),
{
    let line: usize = if n.start_row < usize::MAX {
        n.start_row + 1
    } else {
        usize::MAX
    };
    let column: usize = if n.start_col < usize::MAX {
        n.start_col + 1
    } else {
        usize::MAX
    };
    SourceLocation {
        start_byte: n.start_byte,
        end_byte: n.end_byte,
        start_position: (n.start_row, n.start_col),
        end_position: (n.end_row, n.end_col),
        line,
        column,
    }
}

/// Walks a subtree and gathers one diagnostic for each error flag and
/// each missing flag; the walk visits every node once and never fails.
pub fn collect_parse_diagnostics(n: &CstNode) -> (r: Vec<ParseDiagnostic>)
    ensures
        pdiags_view(r) == collect_pdiags(n@),
    decreases *n, 1nat,
{
    let mut out: Vec<ParseDiagnostic> = Vec::new();
    if n.error {
        let mut msg = String::new();
        msg.append("Syntax error near: '");
        match &n.text {
            Some(t) => {
                msg.append(t.as_str());
            },
            None => {
                msg.append("<invalid UTF-8>");
            },
        }
        msg.append("'");
        proof {
            assert(msg@ =~= syntax_error_message_of(n@));
        }
        let d = ParseDiagnostic::error(location_of(n), msg).with_code(
            String::from_str("syntax_error"),
        );
        out.push(d);
    }
    if n.missing {
        let mut msg = String::new();
        msg.append("Missing: ");
        msg.append(n.kind.as_str());
        proof {
            assert(msg@ =~= "Missing: "@ + n@.kind);
        }
        let d = ParseDiagnostic::error(location_of(n), msg).with_code(
            String::from_str("missing_node"),
        );
        out.push(d);
    }
    proof {
        crate::cst::lemma_children_view(n);
        assert(pdiags_view(out) =~= own_pdiags(n@));
    }
    let rest = collect_pdiags_from(&n.children, 0);
    let ghost out_before = out@;
    let ghost restm = pdiags_view(rest);
    let mut tail = rest;
    let ghost tail_before = tail@;
    out.append(&mut tail);
    proof {
        assert forall|k: int|
            0 <= k < out@.len() implies #[trigger] pdiags_view(out)[k] == (own_pdiags(n@)
            + collect_pdiags_seq(n@.children, 0))[k] by {
            assert(pdiags_view(out)[k] == out@[k]@);
            if k < out_before.len() {
                assert(out@[k] == out_before[k]);
                assert(own_pdiags(n@)[k] == out_before[k]@);
            } else {
                let j = k - out_before.len();
                assert(out@[k] == tail_before[j]);
                assert(restm[j] == tail_before[j]@);
            }
        }
        assert(pdiags_view(out) =~= own_pdiags(n@) + collect_pdiags_seq(n@.children, 0));
    }
    out
}

/// Gathers the diagnostics of the subtrees of `children[i..]`.
fn collect_pdiags_from(children: &Vec<CstNode>, i: usize) -> (r: Vec<ParseDiagnostic>)
    ensures
        pdiags_view(r) == collect_pdiags_seq(nodes_view(*children), i as int),
    decreases *children, 0nat, children@.len() - i,
{
    if i >= children.len() {
        let v: Vec<ParseDiagnostic> = Vec::new();
        proof {
            assert(pdiags_view(v) =~= Seq::<PDiagModel>::empty());
        }
        return v;
    }
    proof {
        assert(nodes_view(*children)[i as int] == children[i as int]@);
    }
    let mut here = collect_parse_diagnostics(&children[i]);
    let ghost herem = pdiags_view(here);
    let rest = collect_pdiags_from(children, i + 1);
    let ghost restm = pdiags_view(rest);
    let ghost here_before = here@;
    let mut tail = rest;
    let ghost tail_before = tail@;
    here.append(&mut tail);
    proof {
        assert forall|k: int|
            0 <= k < here@.len() implies #[trigger] pdiags_view(here)[k] == (collect_pdiags(
            nodes_view(*children)[i as int],
        ) + collect_pdiags_seq(nodes_view(*children), i + 1))[k] by {
            assert(pdiags_view(here)[k] == here@[k]@);
            if k < here_before.len() {
                assert(here@[k] == here_before[k]);
                assert(herem[k] == here_before[k]@);
            } else {
                let j = k - here_before.len();
                assert(here@[k] == tail_before[j]);
                assert(restm[j] == tail_before[j]@);
            }
        }
        assert(pdiags_view(here) =~= collect_pdiags(nodes_view(*children)[i as int])
            + collect_pdiags_seq(nodes_view(*children), i + 1));
    }
    here
}

/// Whether a diagnostic sequence holds an entry of the given severity.
pub open spec fn has_severity(s: Seq<PDiagModel>, sev: DiagnosticSeverity) -> bool {
    exists|i: int| 0 <= i < s.len() && s[i].severity == sev
}

/// How many entries of the given severity stand in `s[i..]`.
pub open spec fn count_severity(s: Seq<PDiagModel>, sev: DiagnosticSeverity, i: int) -> nat
    decreases s.len() - i,
{
    if i < 0 || i >= s.len() {
        0
    } else if s[i].severity == sev {
        1 + count_severity(s, sev, i + 1)
    } else {
        count_severity(s, sev, i + 1)
    }
}

/// Counts the diagnostics of one severity.
fn count_by_severity(diags: &Vec<ParseDiagnostic>, sev: DiagnosticSeverity) -> (r: usize)
    ensures
        r == count_severity(pdiags_view(*diags), sev, 0),
        (r > 0) == has_severity(pdiags_view(*diags), sev),
{
    let ghost dm = pdiags_view(*diags);
    let mut count: usize = 0;
    let mut i: usize = 0;
    proof {
        lemma_count_severity_bound(dm, sev, 0);
    }
    while i < diags.len()
        invariant
            0 <= i <= diags@.len(),
            dm == pdiags_view(*diags),
            dm.len() == diags@.len(),
            count_severity(dm, sev, 0) == count + count_severity(dm, sev, i as int),
            count <= i,
            (count > 0) == (exists|j: int| 0 <= j < i && dm[j].severity == sev),
        decreases diags@.len() - i,
    {
        proof {
            assert(dm[i as int] == diags@[i as int]@);
        }
        if diags[i].severity.eq_sev(sev) {
            count = count + 1;
        }
        i = i + 1;
    }
    proof {
        if count > 0 {
            assert(has_severity(dm, sev));
        }
        if has_severity(dm, sev) {
            let j = choose|j: int| 0 <= j < dm.len() && dm[j].severity == sev;
            assert(0 <= j < i);
        }
    }
    count
}

proof fn lemma_count_severity_bound(s: Seq<PDiagModel>, sev: DiagnosticSeverity, i: int)
    requires
        0 <= i <= s.len(),
    ensures
        count_severity(s, sev, i) <= s.len() - i,
    decreases s.len() - i,
{
    if i < s.len() {
        lemma_count_severity_bound(s, sev, i + 1);
    }
}

impl DiagnosticSeverity {
    /// Compares two severities.
    pub fn eq_sev(self, other: DiagnosticSeverity) -> (r: bool)
        ensures
            r == (self == other),
    {
        match (self, other) {
            (DiagnosticSeverity::Info, DiagnosticSeverity::Info) => true,
            (DiagnosticSeverity::Warning, DiagnosticSeverity::Warning) => true,
            (DiagnosticSeverity::Error, DiagnosticSeverity::Error) => true,
            _ => false,
        }
    }
}

/// The summary line one error diagnostic yields.
pub open spec fn error_line_of(d: PDiagModel) -> Seq<char> {
    "  - Line "@ + dec_str(d.line as nat) + ", Column "@ + dec_str(d.column as nat) + ": "@
        + d.message + "\n"@
}

/// The summary lines of the error diagnostics of `s[i..]`, in order.
pub open spec fn error_lines(s: Seq<PDiagModel>, i: int) -> Seq<char>
    decreases s.len() - i,
{
    if i < 0 || i >= s.len() {
        Seq::empty()
    } else if s[i].severity == DiagnosticSeverity::Error {
        error_line_of(s[i]) + error_lines(s, i + 1)
    } else {
        error_lines(s, i + 1)
    }
}

/// The rendered error summary: the count, then one line per error.
pub open spec fn summary_of(s: Seq<PDiagModel>) -> Seq<char> {
    "Found "@ + dec_str(count_severity(s, DiagnosticSeverity::Error, 0))
        + " parse error(s):\n"@ + error_lines(s, 0)
}

/// Statistics about one parse result.
#[derive(Debug, Clone, Copy, PartialEq, Eq, Structural)]
pub struct ParseStats {
    /// How many nodes the tree holds.
    pub node_count: usize,
    /// How long parsing took, in milliseconds.
    pub parse_time_ms: u64,
    /// How many error diagnostics were collected.
    pub error_count: usize,
    /// How many warning diagnostics were collected.
    pub warning_count: usize,
    /// The source text's size in bytes.
    pub source_size: usize,
    /// Whether the parse reused an earlier tree.
    pub incremental: bool,
}

/// A parse result: the engine's tree handle, its converted form, the
/// source text, the collected diagnostics, and optional statistics.
pub struct ParseResult {
    tree: tree_sitter::Tree,
    cst: CstNode,
    source: String,
    diagnostics: Vec<ParseDiagnostic>,
    statistics: Option<ParseStats>,
}

impl ParseResult {
    /// The converted tree's mathematical value.
    pub closed spec fn spec_cst(&self) -> CstModel {
        self.cst@
    }

    /// The source text's mathematical value.
    pub closed spec fn spec_source(&self) -> Seq<char> {
        self.source@
    }

    /// The diagnostics' mathematical values.
    pub closed spec fn spec_diags(&self) -> Seq<PDiagModel> {
        pdiags_view(self.diagnostics)
    }

    /// The statistics, if set.
    pub closed spec fn spec_stats(&self) -> Option<ParseStats> {
        self.statistics
    }

    /// Whether the result's diagnostics are exactly what the collector
    /// yields on its own tree.
    pub open spec fn coherent(&self) -> bool {
        self.spec_diags() == collect_pdiags(self.spec_cst())
    }

    /// Bundles an engine tree, its converted form and the source into a
    /// result, collecting the diagnostics.
    pub fn from_tree(tree: tree_sitter::Tree, cst: CstNode, source: String) -> (r:
        core::result::Result<ParseResult, ParseError>)
        ensures
            r matches Ok(res) && res.spec_cst() == cst@ && res.spec_source() == source@
                && res.spec_diags() == collect_pdiags(cst@) && res.spec_stats() is None,
    {
        let diagnostics = collect_parse_diagnostics(&cst);
        Ok(ParseResult { tree, cst, source, diagnostics, statistics: None })
    }

    /// The engine's tree handle.
    pub fn tree(&self) -> &tree_sitter::Tree {
        &self.tree
    }

    /// The converted tree.
    pub fn cst(&self) -> (r: &CstNode)
        ensures
            r@ == self.spec_cst(),
    {
        &self.cst
    }

    /// The source text that was parsed.
    pub fn source(&self) -> (r: &str)
        ensures
            r@ == self.spec_source(),
    {
        self.source.as_str()
    }

    /// The collected diagnostics.
    pub fn diagnostics(&self) -> (r: &Vec<ParseDiagnostic>)
        ensures
            pdiags_view(*r) == self.spec_diags(),
    {
        &self.diagnostics
    }

    /// Whether any error diagnostic was collected.
    pub fn has_errors(&self) -> (r: bool)
        ensures
            r == has_severity(self.spec_diags(), DiagnosticSeverity::Error),
    {
        let c = count_by_severity(&self.diagnostics, DiagnosticSeverity::Error);
        c > 0
    }

    /// Whether any warning diagnostic was collected.
    pub fn has_warnings(&self) -> (r: bool)
        ensures
            r == has_severity(self.spec_diags(), DiagnosticSeverity::Warning),
    {
        let c = count_by_severity(&self.diagnostics, DiagnosticSeverity::Warning);
        c > 0
    }

    /// Lowers the root's `expression` field, where the tree has one.
    pub fn expression(&self) -> (r: core::result::Result<Option<Expression>, ParseError>)
        ensures
            match find_field(self.spec_cst().children, "expression"@) {
                None => r matches Ok(o) && o is None,
                Some(c) => match lower_node(
                    c,
                    crate::engine::DEFAULT_MAX_NESTING_DEPTH as nat,
                ) {
                    Ok(m) => r matches Ok(o) && o matches Some(e) && e@ == m,
                    Err(le) => r matches Err(pe) && pe@ == lower_err_model(le),
                },
            },
    {
        match self.cst.child_by_field("expression") {
            None => Ok(None),
            Some(c) => match crate::lower::node_to_ast(
                c,
                crate::engine::DEFAULT_MAX_NESTING_DEPTH,
            ) {
                Ok(e) => Ok(Some(e)),
                Err(pe) => Err(pe),
            },
        }
    }

    /// Appends one diagnostic.
    pub fn add_diagnostic(&mut self, diagnostic: ParseDiagnostic)
        ensures
            final(self).spec_diags() == old(self).spec_diags().push(diagnostic@),
            final(self).spec_cst() == old(self).spec_cst(),
            final(self).spec_source() == old(self).spec_source(),
            final(self).spec_stats() == old(self).spec_stats(),
    {
        let ghost dm = diagnostic@;
        let ghost before = pdiags_view(self.diagnostics);
        self.diagnostics.push(diagnostic);
        proof {
            assert forall|k: int|
                0 <= k < pdiags_view(self.diagnostics).len() implies #[trigger] pdiags_view(
                self.diagnostics,
            )[k] == before.push(dm)[k] by {
                assert(pdiags_view(self.diagnostics)[k] == self.diagnostics@[k]@);
            }
            assert(pdiags_view(self.diagnostics) =~= before.push(dm));
        }
    }

    /// The statistics, if they were gathered.
    pub fn statistics(&self) -> (r: Option<&ParseStats>)
        ensures
            match r {
                Some(s) => self.spec_stats() == Some(*s),
                None => self.spec_stats() is None,
            },
    {
        self.statistics.as_ref()
    }

    /// Sets or clears the statistics.
    pub fn set_statistics(&mut self, statistics: Option<ParseStats>)
        ensures
            final(self).spec_stats() == statistics,
            final(self).spec_cst() == old(self).spec_cst(),
            final(self).spec_source() == old(self).spec_source(),
            final(self).spec_diags() == old(self).spec_diags(),
    {
        self.statistics = statistics;
    }

    /// Renders a summary of the collected errors; absent exactly when no
    /// error diagnostic exists, and otherwise the error count followed by
    /// one line per error with its place and message, none dropped.
    pub fn error_summary(&self) -> (r: Option<String>)
        ensures
            (r is Some) == has_severity(self.spec_diags(), DiagnosticSeverity::Error),
            r matches Some(s) ==> s@ == summary_of(self.spec_diags()),
    {
        let n = count_by_severity(&self.diagnostics, DiagnosticSeverity::Error);
        if n == 0 {
            return None;
        }
        let ghost dm = self.spec_diags();
        let mut summary = String::new();
        summary.append("Found ");
        let ns = usize_to_string(n);
        summary.append(ns.as_str());
        summary.append(" parse error(s):\n");
        let ghost head = summary@;
        proof {
            assert(head =~= "Found "@ + dec_str(
                count_severity(dm, DiagnosticSeverity::Error, 0),
            ) + " parse error(s):\n"@);
        }
        let mut i: usize = 0;
        while i < self.diagnostics.len()
            invariant
                0 <= i <= self.diagnostics@.len(),
                dm == self.spec_diags(),
                dm.len() == self.diagnostics@.len(),
                head + error_lines(dm, 0) == summary@ + error_lines(dm, i as int),
            decreases self.diagnostics@.len() - i,
        {
            proof {
                assert(dm[i as int] == self.diagnostics@[i as int]@);
            }
            if self.diagnostics[i].severity.eq_sev(DiagnosticSeverity::Error) {
                let ghost prev = summary@;
                summary.append("  - Line ");
                let ls = usize_to_string(self.diagnostics[i].location.line);
                summary.append(ls.as_str());
                summary.append(", Column ");
                let cs = usize_to_string(self.diagnostics[i].location.column);
                summary.append(cs.as_str());
                summary.append(": ");
                summary.append(self.diagnostics[i].message.as_str());
                summary.append("\n");
                proof {
                    assert(summary@ =~= prev + error_line_of(dm[i as int]));
                    assert(error_lines(dm, i as int) == error_line_of(dm[i as int])
                        + error_lines(dm, i + 1));
                    assert(prev + (error_line_of(dm[i as int]) + error_lines(dm, i + 1)) =~= (prev
                        + error_line_of(dm[i as int])) + error_lines(dm, i + 1));
                }
            }
            i = i + 1;
        }
        proof {
            assert(error_lines(dm, dm.len() as int) =~= Seq::<char>::empty());
            assert(summary@ + Seq::<char>::empty() =~= summary@);
            assert(summary@ =~= summary_of(dm));
        }
        Some(summary)
    }
}

impl ParseStats {
    /// Reads statistics off a result: node and diagnostic counts, source
    /// size, and the caller's timing and reuse facts.
    pub fn from_result(result: &ParseResult, parse_time_ms: u64, incremental: bool) -> (r:
        ParseStats)
        ensures
            model_count(result.spec_cst()) <= usize::MAX ==> r.node_count == model_count(
                result.spec_cst(),
            ),
            r.parse_time_ms == parse_time_ms,
            r.error_count == count_severity(result.spec_diags(), DiagnosticSeverity::Error, 0),
            r.warning_count == count_severity(result.spec_diags(), DiagnosticSeverity::Warning, 0),
            r.source_size == result.spec_source_bytes().len() as usize,
            r.incremental == incremental,
    {
        let node_count = result.cst().count_nodes();
        let error_count = count_by_severity(result.diagnostics(), DiagnosticSeverity::Error);
        let warning_count = count_by_severity(result.diagnostics(), DiagnosticSeverity::Warning);
        let src = result.source();
        let source_size = src.len();
        proof {
            assert(src.spec_bytes() == vstd::utf8::encode_utf8(src@));
        }
        ParseStats {
            node_count,
            parse_time_ms,
            error_count,
            warning_count,
            source_size,
            incremental,
        }
    }
}

impl ParseResult {
    /// The source text's bytes, as the statistics measure it.
    pub closed spec fn spec_source_bytes(&self) -> Seq<u8> {
        vstd::utf8::encode_utf8(self.source@)
    }
}

impl ParseResult {
    /// Copies the result; the copy has the same tree, source, diagnostics
    /// and statistics values, with the engine handle duplicated.
    pub fn duplicate(&self) -> (r: ParseResult)
        ensures
            r.spec_cst() == self.spec_cst(),
            r.spec_source() == self.spec_source(),
            r.spec_diags() == self.spec_diags(),
            r.spec_stats() == self.spec_stats(),
    {
        let mut diagnostics: Vec<ParseDiagnostic> = Vec::new();
        let mut i: usize = 0;
        while i < self.diagnostics.len()
            invariant
                0 <= i <= self.diagnostics@.len(),
                diagnostics@.len() == i,
                forall|j: int| 0 <= j < i ==> #[trigger] diagnostics@[j]@ == self.diagnostics@[j]@,
            decreases self.diagnostics@.len() - i,
        {
            diagnostics.push(self.diagnostics[i].clone());
            i = i + 1;
        }
        let r = ParseResult {
            tree: crate::engine::tree_clone(&self.tree),
            cst: self.cst.duplicate(),
            source: self.source.clone(),
            diagnostics,
            statistics: self.statistics,
        };
        proof {
            assert forall|k: int|
                0 <= k < r.diagnostics@.len() implies #[trigger] pdiags_view(r.diagnostics)[k]
                == pdiags_view(self.diagnostics)[k] by {
                assert(pdiags_view(r.diagnostics)[k] == r.diagnostics@[k]@);
                assert(pdiags_view(self.diagnostics)[k] == self.diagnostics@[k]@);
            }
            assert(pdiags_view(r.diagnostics) =~= pdiags_view(self.diagnostics));
        }
        r
    }
}

} // verus!
