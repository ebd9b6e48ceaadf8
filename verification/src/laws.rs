//! The library's laws: statements that tie several functions together,
//! each proved from the contracts the functions themselves carry.

use vstd::prelude::*;

verus! {

use crate::cst::CstModel;
use crate::engine::cst_of;
use crate::lower::LowerErr;
use crate::lower::lower_node;
use crate::parser::result_valid;
use crate::result::ParseResult;

/// Lowering is a function of the tree and the depth budget alone: two
/// outcomes of lowering the same tree are the same outcome, so lowering
/// the same tree twice yields structurally equal expressions.
pub proof fn lemma_lowering_deterministic(
    m: CstModel,
    depth: nat,
    r1: core::result::Result<crate::ast::ExprModel, LowerErr>,
    r2: core::result::Result<crate::ast::ExprModel, LowerErr>,
)
    requires
        r1 == lower_node(m, depth),
        r2 == lower_node(m, depth),
    ensures
        r1 == r2,
{
}

/// Cache transparency: two results that are each the parse of the same
/// source text carry the same tree and the same diagnostics, so a cache
/// hit is indistinguishable from the first computation.
pub proof fn lemma_cache_transparent(a: &ParseResult, b: &ParseResult, source: Seq<char>)
    requires
        result_valid(a, source),
        result_valid(b, source),
    ensures
        a.spec_cst() == b.spec_cst(),
        a.spec_diags() == b.spec_diags(),
        a.spec_source() == b.spec_source(),
{
}

use crate::incremental::byte_len_from;
use crate::incremental::char_u16_len;
use crate::incremental::char_u8_len;
use crate::incremental::off_to_pos_from;
use crate::incremental::pos_to_off_from;
use crate::incremental::spec_byte_offset_to_position;
use crate::incremental::spec_position_to_byte_offset;

/// Whether every character of a text is a seven-bit character.
pub open spec fn all_ascii(s: Seq<char>) -> bool {
    forall|i: int| 0 <= i < s.len() ==> (#[trigger] s[i] as u32) < 128
}

/// A position walk never moves backwards: the line only grows, and on
/// an unchanged line the column only grows.
proof fn lemma_walk_monotone(s: Seq<char>, target: int, i: int, off: int, line: int, col: int)
    ensures
        off_to_pos_from(s, target, i, off, line, col).0 >= line,
        off_to_pos_from(s, target, i, off, line, col).0 == line ==> off_to_pos_from(
            s,
            target,
            i,
            off,
            line,
            col,
        ).1 >= col,
    decreases s.len() - i,
{
    if i < 0 || i >= s.len() || off >= target {
    } else if s[i] == '\n' {
        lemma_walk_monotone(s, target, i + 1, off + 1, line + 1, 0);
    } else {
        lemma_walk_monotone(s, target, i + 1, off + char_u8_len(s[i]), line, col + char_u8_len(
            s[i],
        ));
    }
}

/// The two translations agree along a seven-bit walk: from any reached
/// state, translating the rest of the way and back lands on the target.
proof fn lemma_round_trip_from(s: Seq<char>, target: int, i: int, line: int, col: int)
    requires
        all_ascii(s),
        0 <= i <= target <= s.len(),
    ensures
        ({
            let p = off_to_pos_from(s, target, i, i, line, col);
            pos_to_off_from(s, p.0, p.1, i, line, col, i) == target
        }),
    decreases target - i,
{
    let p = off_to_pos_from(s, target, i, i, line, col);
    if i == target {
        assert(p == (line, col));
        assert(pos_to_off_from(s, line, col, i, line, col, i) == i);
    } else {
        assert(i < s.len());
        assert((s[i] as u32) < 128);
        assert(char_u8_len(s[i]) == 1);
        assert(char_u16_len(s[i]) == 1);
        if s[i] == '\n' {
            lemma_round_trip_from(s, target, i + 1, line + 1, 0);
            lemma_walk_monotone(s, target, i + 1, i + 1, line + 1, 0);
            let q = off_to_pos_from(s, target, i + 1, i + 1, line + 1, 0);
            assert(p == q);
            assert(q.0 >= line + 1);
            assert(!(line == q.0 && col == q.1));
            assert(pos_to_off_from(s, q.0, q.1, i, line, col, i) == pos_to_off_from(
                s,
                q.0,
                q.1,
                i + 1,
                line + 1,
                0,
                i + 1,
            ));
        } else {
            lemma_round_trip_from(s, target, i + 1, line, col + 1);
            lemma_walk_monotone(s, target, i + 1, i + 1, line, col + 1);
            let q = off_to_pos_from(s, target, i + 1, i + 1, line, col + 1);
            assert(p == q);
            assert(q.0 >= line);
            if q.0 == line {
                assert(q.1 >= col + 1);
            }
            assert(!(line == q.0 && col == q.1));
            assert(pos_to_off_from(s, q.0, q.1, i, line, col, i) == pos_to_off_from(
                s,
                q.0,
                q.1,
                i + 1,
                line,
                col + 1,
                i + 1,
            ));
        }
    }
}

/// Position round trip: over seven-bit text, translating a byte offset
/// to a (line, column) position and that position back to an offset
/// yields the original offset, for any offset inside the text.
pub proof fn lemma_position_round_trip(s: Seq<char>, off: int)
    requires
        all_ascii(s),
        0 <= off <= s.len(),
    ensures
        ({
            let p = spec_byte_offset_to_position(s, off);
            spec_position_to_byte_offset(s, p.0, p.1) == off
        }),
{
    lemma_round_trip_from(s, off, 0, 0, 0);
}

use crate::cst::find_field;
use crate::lower::binop_of;
use crate::lower::unop_of;
use crate::lower::is_wrapper_kind;
use crate::lower::is_path_kind;
use crate::strutil::parse_i64_spec;

/// The first child filling either of two field names, the first name
/// preferred, as the lowering dispatch reads paired field vocabularies.
pub open spec fn field2(children: Seq<CstModel>, a: Seq<char>, b: Seq<char>) -> Option<CstModel> {
    match find_field(children, a) {
        Some(c) => Some(c),
        None => find_field(children, b),
    }
}

/// Whether a tree's core structure is whole and visible within the
/// given depth budget: a transparent wrapper around a whole child, a
/// readable literal, a name, a path without children, or an
/// application, conditional, scoping, assertion, selection, test or
/// operator form whose required fields are present and themselves
/// whole.  String, list, attribute-set, let, function and inherit
/// forms are not covered here.
pub open spec fn core_form(m: CstModel, depth: nat) -> bool
    decreases depth,
{
    if depth == 0 {
        false
    } else {
        let k = m.kind;
        let d = (depth - 1) as nat;
        if is_wrapper_kind(k) {
            find_field(m.children, "expression"@) matches Some(c) && core_form(c, d)
        } else if k == "integer"@ || k == "integer_expression"@ {
            m.text matches Some(t) && parse_i64_spec(t) is Some
        } else if k == "float"@ || k == "float_expression"@ || k == "boolean"@ || k
            == "identifier"@ || k == "variable_expression"@ {
            m.text is Some
        } else if k == "null"@ {
            true
        } else if is_path_kind(k) {
            m.children.len() == 0 && m.text is Some
        } else if k == "apply"@ || k == "apply_expression"@ || k == "application"@ {
            &&& (field2(m.children, "fn"@, "function"@) matches Some(f) && core_form(f, d))
            &&& (field2(m.children, "arg"@, "argument"@) matches Some(a) && core_form(a, d))
        } else if k == "if_expr"@ || k == "if_expression"@ {
            &&& (field2(m.children, "cond"@, "condition"@) matches Some(c) && core_form(c, d))
            &&& (field2(m.children, "then_expr"@, "consequence"@) matches Some(t) && core_form(
                t,
                d,
            ))
            &&& (field2(m.children, "else_expr"@, "alternative"@) matches Some(e) && core_form(
                e,
                d,
            ))
        } else if k == "with_expr"@ || k == "with_expression"@ {
            &&& (field2(m.children, "namespace"@, "environment"@) matches Some(n) && core_form(
                n,
                d,
            ))
            &&& (find_field(m.children, "body"@) matches Some(b) && core_form(b, d))
        } else if k == "assert_expr"@ || k == "assert_expression"@ {
            &&& (find_field(m.children, "condition"@) matches Some(c) && core_form(c, d))
            &&& (find_field(m.children, "body"@) matches Some(b) && core_form(b, d))
        } else if k == "binary"@ || k == "binary_expression"@ {
            &&& (find_field(m.children, "left"@) matches Some(l) && core_form(l, d))
            &&& (find_field(m.children, "right"@) matches Some(r) && core_form(r, d))
            &&& (find_field(m.children, "operator"@) matches Some(o) && (o.text matches Some(t)
                && binop_of(t) is Some))
        } else if k == "unary"@ || k == "unary_expression"@ {
            &&& (find_field(m.children, "argument"@) matches Some(a) && core_form(a, d))
            &&& (find_field(m.children, "operator"@) matches Some(o) && (o.text matches Some(t)
                && unop_of(t) is Some))
        } else if k == "select"@ || k == "select_expression"@ {
            &&& (field2(m.children, "obj"@, "expression"@) matches Some(o) && core_form(o, d))
            &&& (field2(m.children, "path"@, "attrpath"@) matches Some(p) && p.text is Some)
            &&& (match find_field(m.children, "default"@) {
                Some(df) => core_form(df, d),
                None => true,
            })
        } else if k == "has_attr"@ || k == "has_attr_expression"@ {
            &&& (field2(m.children, "expression"@, "obj"@) matches Some(o) && core_form(o, d))
            &&& (find_field(m.children, "attrpath"@) matches Some(p) && p.text is Some)
        } else {
            false
        }
    }
}

/// Pins the length and leading characters of every kind tag the core
/// dispatch distinguishes, so that distinct tags compare as unequal.
proof fn lemma_kind_literals()
    ensures
        "source_file"@.len() == 11,
        "source_file"@[0] == 's',
        "source_file"@[1] == 'o',
        "source_file"@[2] == 'u',
        "source_code"@.len() == 11,
        "source_code"@[0] == 's',
        "source_code"@[1] == 'o',
        "source_code"@[2] == 'u',
        "expr"@.len() == 4,
        "expr"@[0] == 'e',
        "expr"@[1] == 'x',
        "expr"@[2] == 'p',
        "paren_expr"@.len() == 10,
        "paren_expr"@[0] == 'p',
        "paren_expr"@[1] == 'a',
        "paren_expr"@[2] == 'r',
        "parenthesized_expression"@.len() == 24,
        "parenthesized_expression"@[0] == 'p',
        "parenthesized_expression"@[1] == 'a',
        "parenthesized_expression"@[2] == 'r',
        "literal"@.len() == 7,
        "literal"@[0] == 'l',
        "literal"@[1] == 'i',
        "literal"@[2] == 't',
        "list_element"@.len() == 12,
        "list_element"@[0] == 'l',
        "list_element"@[1] == 'i',
        "list_element"@[2] == 's',
        "integer"@.len() == 7,
        "integer"@[0] == 'i',
        "integer"@[1] == 'n',
        "integer"@[2] == 't',
        "integer_expression"@.len() == 18,
        "integer_expression"@[0] == 'i',
        "integer_expression"@[1] == 'n',
        "integer_expression"@[2] == 't',
        "float"@.len() == 5,
        "float"@[0] == 'f',
        "float"@[1] == 'l',
        "float"@[2] == 'o',
        "float_expression"@.len() == 16,
        "float_expression"@[0] == 'f',
        "float_expression"@[1] == 'l',
        "float_expression"@[2] == 'o',
        "boolean"@.len() == 7,
        "boolean"@[0] == 'b',
        "boolean"@[1] == 'o',
        "boolean"@[2] == 'o',
        "identifier"@.len() == 10,
        "identifier"@[0] == 'i',
        "identifier"@[1] == 'd',
        "identifier"@[2] == 'e',
        "variable_expression"@.len() == 19,
        "variable_expression"@[0] == 'v',
        "variable_expression"@[1] == 'a',
        "variable_expression"@[2] == 'r',
        "null"@.len() == 4,
        "null"@[0] == 'n',
        "null"@[1] == 'u',
        "null"@[2] == 'l',
        "path"@.len() == 4,
        "path"@[0] == 'p',
        "path"@[1] == 'a',
        "path"@[2] == 't',
        "path_expression"@.len() == 15,
        "path_expression"@[0] == 'p',
        "path_expression"@[1] == 'a',
        "path_expression"@[2] == 't',
        "hpath_expression"@.len() == 16,
        "hpath_expression"@[0] == 'h',
        "hpath_expression"@[1] == 'p',
        "hpath_expression"@[2] == 'a',
        "spath_expression"@.len() == 16,
        "spath_expression"@[0] == 's',
        "spath_expression"@[1] == 'p',
        "spath_expression"@[2] == 'a',
        "apply"@.len() == 5,
        "apply"@[0] == 'a',
        "apply"@[1] == 'p',
        "apply"@[2] == 'p',
        "apply_expression"@.len() == 16,
        "apply_expression"@[0] == 'a',
        "apply_expression"@[1] == 'p',
        "apply_expression"@[2] == 'p',
        "application"@.len() == 11,
        "application"@[0] == 'a',
        "application"@[1] == 'p',
        "application"@[2] == 'p',
        "if_expr"@.len() == 7,
        "if_expr"@[0] == 'i',
        "if_expr"@[1] == 'f',
        "if_expr"@[2] == '_',
        "if_expression"@.len() == 13,
        "if_expression"@[0] == 'i',
        "if_expression"@[1] == 'f',
        "if_expression"@[2] == '_',
        "with_expr"@.len() == 9,
        "with_expr"@[0] == 'w',
        "with_expr"@[1] == 'i',
        "with_expr"@[2] == 't',
        "with_expression"@.len() == 15,
        "with_expression"@[0] == 'w',
        "with_expression"@[1] == 'i',
        "with_expression"@[2] == 't',
        "assert_expr"@.len() == 11,
        "assert_expr"@[0] == 'a',
        "assert_expr"@[1] == 's',
        "assert_expr"@[2] == 's',
        "assert_expression"@.len() == 17,
        "assert_expression"@[0] == 'a',
        "assert_expression"@[1] == 's',
        "assert_expression"@[2] == 's',
        "binary"@.len() == 6,
        "binary"@[0] == 'b',
        "binary"@[1] == 'i',
        "binary"@[2] == 'n',
        "binary_expression"@.len() == 17,
        "binary_expression"@[0] == 'b',
        "binary_expression"@[1] == 'i',
        "binary_expression"@[2] == 'n',
        "unary"@.len() == 5,
        "unary"@[0] == 'u',
        "unary"@[1] == 'n',
        "unary"@[2] == 'a',
        "unary_expression"@.len() == 16,
        "unary_expression"@[0] == 'u',
        "unary_expression"@[1] == 'n',
        "unary_expression"@[2] == 'a',
        "select"@.len() == 6,
        "select"@[0] == 's',
        "select"@[1] == 'e',
        "select"@[2] == 'l',
        "select_expression"@.len() == 17,
        "select_expression"@[0] == 's',
        "select_expression"@[1] == 'e',
        "select_expression"@[2] == 'l',
        "has_attr"@.len() == 8,
        "has_attr"@[0] == 'h',
        "has_attr"@[1] == 'a',
        "has_attr"@[2] == 's',
        "has_attr_expression"@.len() == 19,
        "has_attr_expression"@[0] == 'h',
        "has_attr_expression"@[1] == 'a',
        "has_attr_expression"@[2] == 's',
        "string"@.len() == 6,
        "string"@[0] == 's',
        "string"@[1] == 't',
        "string"@[2] == 'r',
        "string_expression"@.len() == 17,
        "string_expression"@[0] == 's',
        "string_expression"@[1] == 't',
        "string_expression"@[2] == 'r',
        "indented_string"@.len() == 15,
        "indented_string"@[0] == 'i',
        "indented_string"@[1] == 'n',
        "indented_string"@[2] == 'd',
        "indented_string_expression"@.len() == 26,
        "indented_string_expression"@[0] == 'i',
        "indented_string_expression"@[1] == 'n',
        "indented_string_expression"@[2] == 'd',
        "list"@.len() == 4,
        "list"@[0] == 'l',
        "list"@[1] == 'i',
        "list"@[2] == 's',
        "list_expression"@.len() == 15,
        "list_expression"@[0] == 'l',
        "list_expression"@[1] == 'i',
        "list_expression"@[2] == 's',
        "attrset"@.len() == 7,
        "attrset"@[0] == 'a',
        "attrset"@[1] == 't',
        "attrset"@[2] == 't',
        "attrset_expression"@.len() == 18,
        "attrset_expression"@[0] == 'a',
        "attrset_expression"@[1] == 't',
        "attrset_expression"@[2] == 't',
        "rec_attrset"@.len() == 11,
        "rec_attrset"@[0] == 'r',
        "rec_attrset"@[1] == 'e',
        "rec_attrset"@[2] == 'c',
        "rec_attrset_expression"@.len() == 22,
        "rec_attrset_expression"@[0] == 'r',
        "rec_attrset_expression"@[1] == 'e',
        "rec_attrset_expression"@[2] == 'c',
        "function"@.len() == 8,
        "function"@[0] == 'f',
        "function"@[1] == 'u',
        "function"@[2] == 'n',
        "function_expression"@.len() == 19,
        "function_expression"@[0] == 'f',
        "function_expression"@[1] == 'u',
        "function_expression"@[2] == 'n',
        "let_expr"@.len() == 8,
        "let_expr"@[0] == 'l',
        "let_expr"@[1] == 'e',
        "let_expr"@[2] == 't',
        "let_expression"@.len() == 14,
        "let_expression"@[0] == 'l',
        "let_expression"@[1] == 'e',
        "let_expression"@[2] == 't',
        "with_keyword"@.len() == 12,
        "with_keyword"@[0] == 'w',
        "with_keyword"@[1] == 'i',
        "with_keyword"@[2] == 't',
        "import_keyword"@.len() == 14,
        "import_keyword"@[0] == 'i',
        "import_keyword"@[1] == 'm',
        "import_keyword"@[2] == 'p',
        "assert_keyword"@.len() == 14,
        "assert_keyword"@[0] == 'a',
        "assert_keyword"@[1] == 's',
        "assert_keyword"@[2] == 's',
        "inherit_keyword"@.len() == 15,
        "inherit_keyword"@[0] == 'i',
        "inherit_keyword"@[1] == 'n',
        "inherit_keyword"@[2] == 'h',
        "import_expr"@.len() == 11,
        "import_expr"@[0] == 'i',
        "import_expr"@[1] == 'm',
        "import_expr"@[2] == 'p',
        "inherit"@.len() == 7,
        "inherit"@[0] == 'i',
        "inherit"@[1] == 'n',
        "inherit"@[2] == 'h',
        "inherit_from"@.len() == 12,
        "inherit_from"@[0] == 'i',
        "inherit_from"@[1] == 'n',
        "inherit_from"@[2] == 'h',
        "source_file"@[7] == 'f',
        "source_code"@[7] == 'c',
{
    reveal_strlit("source_file");
    reveal_strlit("source_code");
    reveal_strlit("expr");
    reveal_strlit("paren_expr");
    reveal_strlit("parenthesized_expression");
    reveal_strlit("literal");
    reveal_strlit("list_element");
    reveal_strlit("integer");
    reveal_strlit("integer_expression");
    reveal_strlit("float");
    reveal_strlit("float_expression");
    reveal_strlit("boolean");
    reveal_strlit("identifier");
    reveal_strlit("variable_expression");
    reveal_strlit("null");
    reveal_strlit("path");
    reveal_strlit("path_expression");
    reveal_strlit("hpath_expression");
    reveal_strlit("spath_expression");
    reveal_strlit("apply");
    reveal_strlit("apply_expression");
    reveal_strlit("application");
    reveal_strlit("if_expr");
    reveal_strlit("if_expression");
    reveal_strlit("with_expr");
    reveal_strlit("with_expression");
    reveal_strlit("assert_expr");
    reveal_strlit("assert_expression");
    reveal_strlit("binary");
    reveal_strlit("binary_expression");
    reveal_strlit("unary");
    reveal_strlit("unary_expression");
    reveal_strlit("select");
    reveal_strlit("select_expression");
    reveal_strlit("has_attr");
    reveal_strlit("has_attr_expression");
    reveal_strlit("string");
    reveal_strlit("string_expression");
    reveal_strlit("indented_string");
    reveal_strlit("indented_string_expression");
    reveal_strlit("list");
    reveal_strlit("list_expression");
    reveal_strlit("attrset");
    reveal_strlit("attrset_expression");
    reveal_strlit("rec_attrset");
    reveal_strlit("rec_attrset_expression");
    reveal_strlit("function");
    reveal_strlit("function_expression");
    reveal_strlit("let_expr");
    reveal_strlit("let_expression");
    reveal_strlit("with_keyword");
    reveal_strlit("import_keyword");
    reveal_strlit("assert_keyword");
    reveal_strlit("inherit_keyword");
    reveal_strlit("import_expr");
    reveal_strlit("inherit");
    reveal_strlit("inherit_from");
}


/// Totality over the core forms: a tree that is whole within the depth
/// budget lowers without error.  An unknown kind outside the table, a
/// search-path reference, or a tree deeper than the budget can still
/// fail, so wholeness is the exact premise, not mere absence of error
/// nodes.
#[verifier::rlimit(100)]
pub proof fn lemma_core_lowering_succeeds(m: CstModel, depth: nat)
    requires
        core_form(m, depth),
    ensures
        lower_node(m, depth) is Ok,
    decreases depth,
{
    lemma_kind_literals();
    let k = m.kind;
    let d = (depth - 1) as nat;
    if is_wrapper_kind(k) {
        let c = find_field(m.children, "expression"@)->Some_0;
        lemma_core_lowering_succeeds(c, d);
        assert(lower_node(m, depth) == lower_node(c, d));
    } else if k == "apply"@ || k == "apply_expression"@ || k == "application"@ {
        lemma_core_lowering_succeeds(field2(m.children, "fn"@, "function"@)->Some_0, d);
        lemma_core_lowering_succeeds(field2(m.children, "arg"@, "argument"@)->Some_0, d);
        assert(lower_node(m, depth) is Ok);
    } else if k == "if_expr"@ || k == "if_expression"@ {
        lemma_core_lowering_succeeds(field2(m.children, "cond"@, "condition"@)->Some_0, d);
        lemma_core_lowering_succeeds(field2(m.children, "then_expr"@, "consequence"@)->Some_0, d);
        lemma_core_lowering_succeeds(field2(m.children, "else_expr"@, "alternative"@)->Some_0, d);
        assert(lower_node(m, depth) is Ok);
    } else if k == "with_expr"@ || k == "with_expression"@ {
        lemma_core_lowering_succeeds(field2(m.children, "namespace"@, "environment"@)->Some_0, d);
        lemma_core_lowering_succeeds(find_field(m.children, "body"@)->Some_0, d);
        assert(lower_node(m, depth) is Ok);
    } else if k == "assert_expr"@ || k == "assert_expression"@ {
        lemma_core_lowering_succeeds(find_field(m.children, "condition"@)->Some_0, d);
        lemma_core_lowering_succeeds(find_field(m.children, "body"@)->Some_0, d);
    } else if k == "binary"@ || k == "binary_expression"@ {
        lemma_core_lowering_succeeds(find_field(m.children, "left"@)->Some_0, d);
        lemma_core_lowering_succeeds(find_field(m.children, "right"@)->Some_0, d);
        assert(lower_node(m, depth) is Ok);
    } else if k == "unary"@ || k == "unary_expression"@ {
        lemma_core_lowering_succeeds(find_field(m.children, "argument"@)->Some_0, d);
    } else if k == "select"@ || k == "select_expression"@ {
        lemma_core_lowering_succeeds(field2(m.children, "obj"@, "expression"@)->Some_0, d);
        if find_field(m.children, "default"@) is Some {
            lemma_core_lowering_succeeds(find_field(m.children, "default"@)->Some_0, d);
        }
        assert(lower_node(m, depth) is Ok);
    } else if k == "has_attr"@ || k == "has_attr_expression"@ {
        lemma_core_lowering_succeeds(field2(m.children, "expression"@, "obj"@)->Some_0, d);
        assert(lower_node(m, depth) is Ok);
    } else {
        assert(lower_node(m, depth) is Ok);
    }
}

use crate::lower::is_string_kind;
use crate::lower::is_attrset_kind;

/// The kind tags the lowering dispatch knows.
pub open spec fn known_kind(k: Seq<char>) -> bool {
    is_wrapper_kind(k) || is_string_kind(k) || is_path_kind(k) || is_attrset_kind(k) || k == "integer"@ || k == "integer_expression"@ || k == "float"@ || k == "float_expression"@ || k == "boolean"@ || k == "identifier"@ || k == "variable_expression"@ || k == "null"@ || k == "apply"@ || k == "apply_expression"@ || k == "application"@ || k == "if_expr"@ || k == "if_expression"@ || k == "with_expr"@ || k == "with_expression"@ || k == "assert_expr"@ || k == "assert_expression"@ || k == "binary"@ || k == "binary_expression"@ || k == "unary"@ || k == "unary_expression"@ || k == "select"@ || k == "select_expression"@ || k == "has_attr"@ || k == "has_attr_expression"@ || k == "list"@ || k == "list_expression"@ || k == "function"@ || k == "function_expression"@ || k == "let_expr"@ || k == "let_expression"@ || k == "with_keyword"@ || k == "import_keyword"@ || k == "assert_keyword"@ || k == "inherit_keyword"@ || k == "import_expr"@ || k == "inherit"@ || k == "inherit_from"@ || k == "ERROR"@
}

/// An unknown kind is a hard failure that names the offending kind: on
/// any node whose tag stands outside the dispatch table, lowering fails
/// with exactly that tag, whatever the node otherwise holds.
pub proof fn lemma_unknown_kind_fails(m: CstModel, depth: nat)
    requires
        depth > 0,
        !known_kind(m.kind),
    ensures
        lower_node(m, depth) == Err::<crate::ast::ExprModel, LowerErr>(
            LowerErr::Unknown(m.kind),
        ),
{
}

/// A conditional with both branches' condition and consequence present
/// but no alternative is a structural fault: lowering fails with the
/// missing-else description, never a crash, whatever else the node
/// holds.
pub proof fn lemma_missing_else_fails(m: CstModel, depth: nat)
    requires
        depth > 0,
        m.kind == "if_expr"@ || m.kind == "if_expression"@,
        field2(m.children, "cond"@, "condition"@) is Some,
        field2(m.children, "then_expr"@, "consequence"@) is Some,
        find_field(m.children, "else_expr"@) is None,
        find_field(m.children, "alternative"@) is None,
    ensures
        lower_node(m, depth) == Err::<crate::ast::ExprModel, LowerErr>(
            LowerErr::Invalid("If missing else branch"@),
        ),
{
    lemma_kind_literals();
}

} // verus!
