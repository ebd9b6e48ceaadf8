//! The boundary to the external grammar engine, and the low-level parser
//! built directly on it.
//!
//! Every call into the engine stands behind a small trusted wrapper; the
//! logic around those calls — diagnostics, lowering, plugin sequencing —
//! is verified.  The name `cst_of` stands for the tree the engine gives
//! a source text: the grammar is fixed, so the tree depends on the text
//! alone.

use vstd::prelude::*;

verus! {

use crate::ast::Expression;
use crate::cst::CstModel;
use crate::cst::CstNode;
use crate::diag::Diagnostic;
use crate::diag::collect_model;
use crate::diag::collect_errors;
use crate::diag::diags_view;
use crate::error::ParseError;
use crate::lower::lower_matches;
use crate::lower::lower_node;
use crate::plugins::Plugin;
use vstd::string::StringExecFns;

/// The grammar engine's syntax tree, carried as an opaque value.
#[verifier::external_type_specification]
#[verifier::external_body]
pub struct ExTree(tree_sitter::Tree);

/// The grammar engine's language value, carried as an opaque value.
#[verifier::external_type_specification]
#[verifier::external_body]
pub struct ExLanguage(tree_sitter::Language);

/// The grammar engine's node handle, carried as an opaque value.
#[verifier::external_type_specification]
#[verifier::external_body]
pub struct ExNode<'a>(tree_sitter::Node<'a>);

/// The tree the grammar engine parses a source text into, as plain
/// values.  The grammar is fixed, so this is a function of the text.
pub uninterp spec fn cst_of(source: Seq<char>) -> CstModel;

/// The depth budget lowering spends when no configuration narrows it.
pub const DEFAULT_MAX_NESTING_DEPTH: u64 = 1000;

/// Relies on `tree_sitter_nix::LANGUAGE` and `Language::from`: builds
/// the engine's language value for the Nix grammar.
#[verifier::external_body]
pub fn language() -> tree_sitter::Language {
    tree_sitter_nix::LANGUAGE.into()
}

/// Relies on `Language::abi_version`: reports the language's binary
/// interface version.
#[verifier::external_body]
pub fn language_abi_version(l: &tree_sitter::Language) -> usize {
    l.abi_version()
}

/// Relies on `Parser::new` and `Parser::set_language`: checks that the
/// Nix grammar loads into a fresh parser, handing back the language or
/// the engine's own complaint.
#[verifier::external_body]
fn language_checked() -> core::result::Result<tree_sitter::Language, String> {
    let language: tree_sitter::Language = tree_sitter_nix::LANGUAGE.into();
    let mut parser = tree_sitter::Parser::new();
    match parser.set_language(&language) {
        Ok(()) => Ok(language),
        Err(e) => Err(e.to_string()),
    }
}

/// Relies on the engine's node accessors (`kind`, byte and point ranges,
/// `is_error`, `is_missing`, `utf8_text`): copies one node into plain
/// values, converting each child through `convert_children`.  The copy
/// recurses as deep as the engine's tree goes: a pathologically nested
/// input can exhaust the stack here, before the depth-budgeted lowering
/// is reached.
#[verifier::external_body]
fn convert_node(node: tree_sitter::Node, src: &[u8], field: Option<&str>) -> CstNode {
    let (sp, ep) = (node.start_position(), node.end_position());
    CstNode {
        kind: node.kind().to_string(),
        text: node.utf8_text(src).ok().map(|t| t.to_string()),
        field: field.map(|f| f.to_string()),
        start_byte: node.start_byte(), end_byte: node.end_byte(),
        start_row: sp.row, start_col: sp.column, end_row: ep.row, end_col: ep.column,
        error: node.is_error(), missing: node.is_missing(),
        children: convert_children(node, src),
    }
}

/// Relies on the engine's tree cursor (`walk`, `goto_first_child`,
/// `goto_next_sibling`, `field_name`): converts a node's children in
/// document order, keeping each child's field name.
#[verifier::external_body]
fn convert_children(node: tree_sitter::Node, src: &[u8]) -> Vec<CstNode> {
    let mut children = Vec::new();
    let mut cur = node.walk();
    if cur.goto_first_child() {
        loop {
            children.push(convert_node(cur.node(), src, cur.field_name()));
            if !cur.goto_next_sibling() {
                break;
            }
        }
    }
    children
}

/// Relies on `Parser::parse` with the fixed Nix grammar and no old
/// tree: the resulting tree depends on the text alone, so its converted
/// form is named `cst_of` the text.
#[verifier::external_body]
pub fn parse_source(source: &str) -> (r: Option<(tree_sitter::Tree, CstNode)>)
    ensures
        r matches Some(p) ==> p.1@ == cst_of(source@),
{
    let mut parser = tree_sitter::Parser::new();
    if parser.set_language(&tree_sitter_nix::LANGUAGE.into()).is_err() {
        return None;
    }
    let tree = parser.parse(source, None)?;
    let cst = convert_node(tree.root_node(), source.as_bytes(), None);
    Some((tree, cst))
}

/// Relies on `Parser::parse` with an edited old tree as a reuse hint:
/// the engine promises a tree for the given text, reusing unchanged
/// parts of the hint; nothing further is assumed of the outcome.
#[verifier::external_body]
pub fn reparse_source(source: &str, old: &tree_sitter::Tree) -> Option<
    (tree_sitter::Tree, CstNode),
> {
    let mut parser = tree_sitter::Parser::new();
    if parser.set_language(&tree_sitter_nix::LANGUAGE.into()).is_err() {
        return None;
    }
    let tree = parser.parse(source, Some(old))?;
    let cst = convert_node(tree.root_node(), source.as_bytes(), None);
    Some((tree, cst))
}

/// Relies on `Tree::edit`: records a pending byte-range replacement on
/// the tree so the next parse can reuse unchanged subtrees.
#[verifier::external_body]
pub fn tree_edit(tree: &mut tree_sitter::Tree, edit: &Edit) {
    let p = |rc: (usize, usize)| tree_sitter::Point { row: rc.0, column: rc.1 };
    tree.edit(&tree_sitter::InputEdit {
        start_byte: edit.start_byte,
        old_end_byte: edit.old_end_byte,
        new_end_byte: edit.new_end_byte,
        start_position: p(edit.start_position),
        old_end_position: p(edit.old_end_position),
        new_end_position: p(edit.new_end_position),
    });
}

/// Relies on `Tree::clone`: duplicates the engine's tree handle.
#[verifier::external_body]
pub fn tree_clone(tree: &tree_sitter::Tree) -> tree_sitter::Tree {
    tree.clone()
}

/// One byte-range replacement, described for the engine's edit hook.
#[derive(Debug, Clone, Copy)]
pub struct Edit {
    /// First byte of the replaced range.
    pub start_byte: usize,
    /// One past the last replaced byte, in the old text.
    pub old_end_byte: usize,
    /// One past the last inserted byte, in the new text.
    pub new_end_byte: usize,
    /// Zero-based (row, column) of the range's start.
    pub start_position: (usize, usize),
    /// Zero-based (row, column) of the old range's end.
    pub old_end_position: (usize, usize),
    /// Zero-based (row, column) of the new range's end.
    pub new_end_position: (usize, usize),
}

/// The result of one engine-level parse: the engine's tree handle, its
/// converted form, the text that was parsed, and its diagnostics.
pub struct ParseResult {
    /// The engine's tree handle, kept for incremental reuse.
    pub tree: tree_sitter::Tree,
    /// The tree as plain values.
    pub cst: CstNode,
    /// The text that was parsed.
    pub source: String,
    /// One diagnostic per error-flagged node.
    pub diagnostics: Vec<Diagnostic>,
}

/// Whether an engine-level result is internally coherent: its
/// diagnostics are exactly what the collector yields on its tree.
pub open spec fn result_coherent(r: &ParseResult) -> bool {
    diags_view(r.diagnostics) == collect_model(r.cst@)
}

/// Whether an engine-level result is the parse of the given text.
pub open spec fn result_for(r: &ParseResult, source: Seq<char>) -> bool {
    &&& r.cst@ == cst_of(source)
    &&& r.source@ == source
    &&& result_coherent(r)
}

/// The low-level parser: it drives the grammar engine and runs the
/// registered plugins around it.
pub struct NixParser {
    language: tree_sitter::Language,
    plugins: Vec<Box<dyn Plugin>>,
}

impl NixParser {
    /// How many plugins are registered.
    pub closed spec fn plugin_count(&self) -> nat {
        self.plugins@.len()
    }

    /// Builds a parser, checking that the grammar loads.
    pub fn new() -> (r: core::result::Result<NixParser, ParseError>)
        ensures
            r matches Ok(p) ==> p.plugin_count() == 0,
    {
        match language_checked() {
            Ok(language) => Ok(NixParser { language, plugins: Vec::new() }),
            Err(msg) => Err(ParseError::LanguageError(msg)),
        }
    }

    /// Registers a plugin; plugins run in registration order.
    pub fn add_plugin(&mut self, plugin: Box<dyn Plugin>)
        ensures
            final(self).plugin_count() == old(self).plugin_count() + 1,
    {
        let ghost before = self.plugins@;
        self.plugins.push(plugin);
        proof {
            vstd::seq::axiom_seq_push_len(before, plugin);
            assert(self.plugins@.len() == before.len() + 1);
        }
    }

    /// Runs every plugin's source rewrite, in order.
    fn run_pre_plugins(&mut self, source: String) -> (r: core::result::Result<String, ParseError>)
        ensures
            old(self).plugins@.len() == 0 ==> (r matches Ok(s) && s@ == source@),
            final(self).plugins@.len() == old(self).plugins@.len(),
    {
        let mut cur = source;
        let mut i: usize = 0;
        while i < self.plugins.len()
            invariant
                0 <= i <= self.plugins@.len(),
                self.plugins@.len() == old(self).plugins@.len(),
                old(self).plugins@.len() == 0 ==> cur@ == source@,
            decreases self.plugins@.len() - i,
        {
            let p = &mut self.plugins[i];
            match p.pre_process(cur) {
                Ok(s) => {
                    cur = s;
                },
                Err(e) => {
                    return Err(e);
                },
            }
            i = i + 1;
        }
        Ok(cur)
    }

    /// Runs every plugin's tree rework, in order.
    fn run_post_plugins(&mut self, tree: tree_sitter::Tree) -> (r: core::result::Result<
        tree_sitter::Tree,
        ParseError,
    >)
        ensures
            final(self).plugins@.len() == old(self).plugins@.len(),
    {
        let mut cur = tree;
        let mut i: usize = 0;
        while i < self.plugins.len()
            invariant
                0 <= i <= self.plugins@.len(),
                self.plugins@.len() == old(self).plugins@.len(),
            decreases self.plugins@.len() - i,
        {
            let p = &mut self.plugins[i];
            match p.post_process(cur) {
                Ok(t) => {
                    cur = t;
                },
                Err(e) => {
                    return Err(e);
                },
            }
            i = i + 1;
        }
        Ok(cur)
    }

    /// Parses source text: plugins first rewrite it, the engine parses
    /// it, plugins rework the tree, and the collector walks the result.
    ///
    /// Without plugins, the result is the parse of the given text; with
    /// them, its diagnostics still fit its own tree exactly.
    pub fn parse(&mut self, source: &str) -> (r: core::result::Result<ParseResult, ParseError>)
        ensures
            r matches Ok(res) ==> result_coherent(&res),
            old(self).plugin_count() == 0 ==> (r matches Ok(res) ==> result_for(&res, source@)),
    {
        let processed = match self.run_pre_plugins(source.to_owned()) {
            Ok(s) => s,
            Err(e) => {
                return Err(e);
            },
        };
        match parse_source(processed.as_str()) {
            None => Err(ParseError::ParseFailed(String::from_str("Failed to parse input"))),
            Some(p) => {
                let (tree, cst) = p;
                let tree = match self.run_post_plugins(tree) {
                    Ok(t) => t,
                    Err(e) => {
                        return Err(e);
                    },
                };
                let diagnostics = collect_errors(&cst);
                Ok(ParseResult { tree, cst, source: processed, diagnostics })
            },
        }
    }

    /// Reparses after edits: the recorded edits are applied to a copy of
    /// the old tree, which the engine then reuses as a hint while it
    /// parses the complete new text.
    pub fn parse_incremental(
        &mut self,
        old_tree: &tree_sitter::Tree,
        source: &str,
        edits: &[Edit],
    ) -> (r: core::result::Result<ParseResult, ParseError>)
        ensures
            r matches Ok(res) ==> res.source@ == source@ && result_coherent(&res),
    {
        let mut tree = tree_clone(old_tree);
        let mut i: usize = 0;
        while i < edits.len()
            decreases edits@.len() - i,
        {
            tree_edit(&mut tree, &edits[i]);
            i = i + 1;
        }
        match reparse_source(source, &tree) {
            None => Err(ParseError::ParseFailed(String::from_str("Incremental parse failed"))),
            Some(p) => {
                let (new_tree, cst) = p;
                let diagnostics = collect_errors(&cst);
                Ok(ParseResult { tree: new_tree, cst, source: source.to_owned(), diagnostics })
            },
        }
    }

    /// Lowers a converted tree to an expression, spending the default
    /// depth budget.
    pub fn to_ast(&self, cst: &CstNode) -> (r: core::result::Result<Expression, ParseError>)
        ensures
            lower_matches(lower_node(cst@, DEFAULT_MAX_NESTING_DEPTH as nat), r),
    {
        crate::lower::node_to_ast(cst, DEFAULT_MAX_NESTING_DEPTH)
    }

    /// Walks a converted tree and gathers its diagnostics.
    pub fn collect_diagnostics(&self, cst: &CstNode) -> (r: Vec<Diagnostic>)
        ensures
            diags_view(r) == collect_model(cst@),
    {
        collect_errors(cst)
    }
}

} // verus!
