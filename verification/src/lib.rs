//! A parser front end for the Nix language, built on an external
//! incremental grammar engine.
//!
//! The library lowers the engine's concrete syntax tree into a typed
//! `Expression` tree, collects diagnostics for error and missing nodes,
//! tracks per-document edit history for incremental reparsing, and offers
//! a bounded least-recently-used cache of parse results.

pub mod analysis;
pub mod ast;
pub mod cache;
pub mod config;
pub mod cst;
pub mod diag;
pub mod engine;
pub mod error;
pub mod grammar;
pub mod incremental;
pub mod laws;
pub mod located;
pub mod lower;
pub mod parser;
pub mod plugins;
pub mod prelude;
pub mod query;
pub mod result;
pub mod scanner;
pub mod strutil;
pub mod transform;
pub mod utils;
pub mod visitor;

pub use crate::ast::Expression;
pub use crate::ast::SourceLocation;
pub use crate::error::ParseError;
pub use crate::error::Result;
pub use crate::parser::MIN_TREE_SITTER_ABI;
pub use crate::parser::NixParser;
pub use crate::strutil::escape_nix_string;
pub use crate::strutil::is_nix_file;
pub use crate::strutil::is_valid_identifier;
pub use crate::strutil::needs_quoting;
pub use crate::strutil::unescape_nix_string;

use vstd::prelude::*;

verus! {

/// The library's version.
pub const VERSION: &'static str = "0.1.0";

/// The language version this parser targets.
pub const SUPPORTED_NIX_VERSION: &'static str = "2.18";

} // verus!
