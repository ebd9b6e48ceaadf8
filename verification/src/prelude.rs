//! Common imports for working with the parser.

pub use crate::ast::Expression;
pub use crate::ast::SourceLocation;
pub use crate::error::ParseError;
pub use crate::error::Result;
pub use crate::parser::NixParser;
pub use crate::plugins::Plugin;
pub use crate::visitor::Visitor;
