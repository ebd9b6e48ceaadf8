//! Extension hooks for the grammar engine's own types.

use vstd::prelude::*;

verus! {

/// Extension hooks for the engine's tree type.
pub trait TreeSitterExt {

}

/// Extension hooks for the engine's node type.
pub trait NodeExt {

}

impl TreeSitterExt for tree_sitter::Tree {

}

impl NodeExt for tree_sitter::Node<'_> {

}

} // verus!
