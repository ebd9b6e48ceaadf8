//! The library's own picture of the grammar engine's concrete syntax tree.
//!
//! Each node carries its kind tag, byte range, row/column points, error and
//! missing flags, the field name it fills under its parent, its source text,
//! and its children in document order.  `CstModel` is the mathematical view
//! of a node, used by every contract that speaks about trees.

use vstd::prelude::*;

verus! {

broadcast use vstd::std_specs::vec::axiom_vec_index_decreases, vstd::seq::axiom_seq_index_decreases;

/// One node of the concrete syntax tree, as plain values.
pub struct CstNode {
    /// The grammar production's kind tag.
    pub kind: String,
    /// The node's source text; `None` when the byte range is not valid text.
    pub text: Option<String>,
    /// The field name this node fills under its parent, if any.
    pub field: Option<String>,
    /// First byte of the node's range.
    pub start_byte: usize,
    /// One past the last byte of the node's range.
    pub end_byte: usize,
    /// Start row, zero-based.
    pub start_row: usize,
    /// Start column, zero-based.
    pub start_col: usize,
    /// End row, zero-based.
    pub end_row: usize,
    /// End column, zero-based.
    pub end_col: usize,
    /// Whether the engine flagged this node as a syntax error.
    pub error: bool,
    /// Whether the engine inserted this node for missing input.
    pub missing: bool,
    /// The node's children, in document order.
    pub children: Vec<CstNode>,
}

/// The mathematical view of a `CstNode`.
pub struct CstModel {
    pub kind: Seq<char>,
    pub text: Option<Seq<char>>,
    pub field: Option<Seq<char>>,
    pub start_byte: int,
    pub end_byte: int,
    pub start_row: int,
    pub start_col: int,
    pub end_row: int,
    pub end_col: int,
    pub error: bool,
    pub missing: bool,
    pub children: Seq<CstModel>,
}

impl CstNode {
    /// The mathematical value of this node and its subtree.
    pub open spec fn model(&self) -> CstModel
        decreases *self,
    {
        CstModel {
            kind: self.kind@,
            text: match self.text {
                Some(t) => Some(t@),
                None => None,
            },
            field: match self.field {
                Some(f) => Some(f@),
                None => None,
            },
            start_byte: self.start_byte as int,
            end_byte: self.end_byte as int,
            start_row: self.start_row as int,
            start_col: self.start_col as int,
            end_row: self.end_row as int,
            end_col: self.end_col as int,
            error: self.error,
            missing: self.missing,
            children: Seq::new(
                self.children.len() as nat,
                |i: int|
                    if 0 <= i < self.children.len() {
                        self.children[i].model()
                    } else {
                        arbitrary()
                    },
            ),
        }
    }
}

impl View for CstNode {
    type V = CstModel;

    open spec fn view(&self) -> CstModel {
        self.model()
    }
}

/// The views of a vector of nodes.
pub open spec fn nodes_view(v: Vec<CstNode>) -> Seq<CstModel> {
    Seq::new(
        v.len() as nat,
        |i: int|
            if 0 <= i < v.len() {
                v[i]@
            } else {
                arbitrary()
            },
    )
}

/// The first child, from position `i` on, that fills the named field.
pub open spec fn find_field_from(children: Seq<CstModel>, name: Seq<char>, i: int) -> Option<
    CstModel,
>
    decreases children.len() - i,
{
    if i < 0 || i >= children.len() {
        None
    } else if children[i].field == Some(name) {
        Some(children[i])
    } else {
        find_field_from(children, name, i + 1)
    }
}

/// The first child that fills the named field.
pub open spec fn find_field(children: Seq<CstModel>, name: Seq<char>) -> Option<CstModel> {
    find_field_from(children, name, 0)
}

/// The first child, from position `i` on, whose kind is `kind`.
pub open spec fn find_kind_from(children: Seq<CstModel>, kind: Seq<char>, i: int) -> Option<
    CstModel,
>
    decreases children.len() - i,
{
    if i < 0 || i >= children.len() {
        None
    } else if children[i].kind == kind {
        Some(children[i])
    } else {
        find_kind_from(children, kind, i + 1)
    }
}

/// The first child whose kind is `kind`.
pub open spec fn find_kind(children: Seq<CstModel>, kind: Seq<char>) -> Option<CstModel> {
    find_kind_from(children, kind, 0)
}

/// The number of nodes in a subtree, the node itself included.
pub open spec fn model_count(m: CstModel) -> nat
    decreases m,
{
    1 + count_from(m.children, 0)
}

/// The number of nodes in the subtrees of `s[i..]`.
pub open spec fn count_from(s: Seq<CstModel>, i: int) -> nat
    decreases s, s.len() - i,
{
    if i < 0 || i >= s.len() {
        0
    } else {
        model_count(s[i]) + count_from(s, i + 1)
    }
}

impl CstNode {
    /// Looks a child up by the field name it fills.
    pub fn child_by_field(&self, name: &str) -> (r: Option<&CstNode>)
        ensures
            match r {
                Some(c) => find_field(self@.children, name@) == Some(c@),
                None => find_field(self@.children, name@) is None,
            },
    {
        let mut i: usize = 0;
        while i < self.children.len()
            invariant
                0 <= i <= self.children.len(),
                find_field_from(self@.children, name@, 0) == find_field_from(
                    self@.children,
                    name@,
                    i as int,
                ),
                self@.children.len() == self.children.len(),
            decreases self.children.len() - i,
        {
            let matches_field = match &self.children[i].field {
                Some(f) => crate::strutil::str_eq(f.as_str(), name),
                None => false,
            };
            if matches_field {
                proof {
                    assert(self@.children[i as int] == self.children[i as int]@);
                    assert(self@.children[i as int].field == Some(name@));
                }
                return Some(&self.children[i]);
            }
            proof {
                assert(self@.children[i as int] == self.children[i as int]@);
                assert(self@.children[i as int].field != Some(name@));
            }
            i = i + 1;
        }
        None
    }

    /// Looks the first child of the given kind up.
    pub fn child_by_kind(&self, kind: &str) -> (r: Option<&CstNode>)
        ensures
            match r {
                Some(c) => find_kind(self@.children, kind@) == Some(c@),
                None => find_kind(self@.children, kind@) is None,
            },
    {
        let mut i: usize = 0;
        while i < self.children.len()
            invariant
                0 <= i <= self.children.len(),
                find_kind_from(self@.children, kind@, 0) == find_kind_from(
                    self@.children,
                    kind@,
                    i as int,
                ),
                self@.children.len() == self.children.len(),
            decreases self.children.len() - i,
        {
            if crate::strutil::str_eq(self.children[i].kind.as_str(), kind) {
                proof {
                    assert(self@.children[i as int] == self.children[i as int]@);
                }
                return Some(&self.children[i]);
            }
            proof {
                assert(self@.children[i as int] == self.children[i as int]@);
            }
            i = i + 1;
        }
        None
    }

    /// Whether this node's kind is the given tag.
    pub fn kind_is(&self, kind: &str) -> (r: bool)
        ensures
            r == (self@.kind == kind@),
    {
        crate::strutil::str_eq(self.kind.as_str(), kind)
    }

    /// Counts the nodes of the subtree, saturating at the machine limit.
    pub fn count_nodes(&self) -> (r: usize)
        ensures
            model_count(self@) <= usize::MAX ==> r == model_count(self@),
        decreases *self,
    {
        let mut total: usize = 1;
        let mut i: usize = 0;
        while i < self.children.len()
            invariant
                0 <= i <= self.children.len(),
                self@.children.len() == self.children.len(),
                1 + count_from(self@.children, 0) <= usize::MAX ==> total == 1 + count_from(
                    self@.children,
                    0,
                ) - count_from(self@.children, i as int),
                total >= 1,
                total as nat <= 1 + count_from(self@.children, 0) - count_from(
                    self@.children,
                    i as int,
                ),
            decreases self.children.len() - i,
        {
            proof {
                assert(self@.children[i as int] == self.children[i as int]@);
                assert(count_from(self@.children, i as int) == model_count(
                    self@.children[i as int],
                ) + count_from(self@.children, i + 1));
            }
            let c = self.children[i].count_nodes();
            if c <= usize::MAX - total {
                total = total + c;
                proof {
                    if model_count(self@.children[i as int]) > usize::MAX {
                        assert(count_from(self@.children, 0) >= count_from(
                            self@.children,
                            i as int,
                        )) by {
                            lemma_count_from_monotone(self@.children, 0, i as int);
                        }
                        assert(1 + count_from(self@.children, 0) > usize::MAX);
                    }
                }
            } else {
                // The count no longer fits; the total saturates.
                proof {
                    lemma_count_from_monotone(self@.children, 0, i as int);
                    if c < model_count(self@.children[i as int]) {
                        assert(model_count(self@.children[i as int]) > usize::MAX);
                    }
                    assert(1 + count_from(self@.children, 0) > usize::MAX);
                }
                return usize::MAX;
            }
            i = i + 1;
        }
        total
    }
}

/// Prefix sums of subtree counts only grow as the start index falls.
proof fn lemma_count_from_monotone(s: Seq<CstModel>, i: int, j: int)
    requires
        0 <= i <= j,
    ensures
        count_from(s, i) >= count_from(s, j),
    decreases j - i,
{
    if i < j {
        lemma_count_from_monotone(s, i + 1, j);
        if i < s.len() {
            assert(count_from(s, i) == model_count(s[i]) + count_from(s, i + 1));
        } else {
            assert(count_from(s, i) == 0);
            assert(count_from(s, j) == 0) by {
                lemma_count_from_oob(s, j);
            }
        }
    }
}

proof fn lemma_count_from_oob(s: Seq<CstModel>, i: int)
    requires
        i >= s.len(),
    ensures
        count_from(s, i) == 0,
{
}

/// A node's modeled children are exactly the views of its child vector.
pub proof fn lemma_children_view(n: &CstNode)
    ensures
        nodes_view(n.children) == n@.children,
{
    assert(nodes_view(n.children) =~= n@.children);
}

impl CstNode {
    /// Copies the subtree; the copy has the same mathematical value.
    pub fn duplicate(&self) -> (r: CstNode)
        ensures
            r@ == self@,
        decreases *self, 1nat,
    {
        let children = duplicate_nodes(&self.children, 0);
        let r = CstNode {
            kind: self.kind.clone(),
            text: match &self.text {
                Some(t) => Some(t.clone()),
                None => None,
            },
            field: match &self.field {
                Some(f) => Some(f.clone()),
                None => None,
            },
            start_byte: self.start_byte,
            end_byte: self.end_byte,
            start_row: self.start_row,
            start_col: self.start_col,
            end_row: self.end_row,
            end_col: self.end_col,
            error: self.error,
            missing: self.missing,
            children,
        };
        proof {
            assert(r.children@.len() == self.children@.len());
            assert forall|k: int|
                0 <= k < r@.children.len() implies #[trigger] r@.children[k]
                == self@.children[k] by {
                assert(r@.children[k] == r.children[k].model());
                assert(self@.children[k] == self.children[k].model());
                assert(r.children@[k]@ == self.children@[k]@);
            }
            assert(r@.children =~= self@.children);
            assert(r@ =~= self@);
        }
        r
    }
}

/// Copies the subtrees of `v[i..]`.
fn duplicate_nodes(v: &Vec<CstNode>, i: usize) -> (r: Vec<CstNode>)
    ensures
        r@.len() + i == v@.len() || (i >= v@.len() && r@.len() == 0),
        forall|k: int| 0 <= k < r@.len() ==> #[trigger] r@[k]@ == v@[k + i]@,
    decreases *v, 0nat, v@.len() - i,
{
    if i >= v.len() {
        let out: Vec<CstNode> = Vec::new();
        return out;
    }
    let here = v[i].duplicate();
    let rest = duplicate_nodes(v, i + 1);
    let ghost rest_before = rest@;
    let mut out = rest;
    let ghost herem = here@;
    out.insert(0, here);
    proof {
        assert forall|k: int| 0 <= k < out@.len() implies #[trigger] out@[k]@ == v@[k + i]@ by {
            if k == 0 {
                assert(out@[0]@ == herem);
            } else {
                assert(out@[k] == rest_before[k - 1]);
            }
        }
    }
    out
}

} // verus!
