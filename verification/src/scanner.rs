//! The token vocabulary of the external scanner.
//!
//! The scanner itself is a foreign, stateful tokenizer driven by the
//! grammar engine; only its token classification is modeled here.

use vstd::prelude::*;

verus! {

/// The externally scanned token types.
#[derive(Debug, Clone, Copy, PartialEq, Eq, Hash, Structural)]
pub enum TokenType {
    /// Start of a regular string.
    StringStart,
    /// Content within a string.
    StringContent,
    /// End of a regular string.
    StringEnd,
    /// Start of an indented string.
    IndentedStringStart,
    /// Content within an indented string.
    IndentedStringContent,
    /// End of an indented string.
    IndentedStringEnd,
    /// Start of an interpolation splice.
    InterpolationStart,
    /// End of an interpolation splice.
    InterpolationEnd,
    /// An escape sequence inside a string.
    EscapeSequence,
    /// A line or block comment.
    Comment,
}

/// Every token type, in declaration order.
pub open spec fn all_token_types() -> Seq<TokenType> {
    seq![
        TokenType::StringStart,
        TokenType::StringContent,
        TokenType::StringEnd,
        TokenType::IndentedStringStart,
        TokenType::IndentedStringContent,
        TokenType::IndentedStringEnd,
        TokenType::InterpolationStart,
        TokenType::InterpolationEnd,
        TokenType::EscapeSequence,
        TokenType::Comment,
    ]
}

/// The name of each token type.
pub open spec fn token_type_name(t: TokenType) -> Seq<char> {
    match t {
        TokenType::StringStart => "string_start"@,
        TokenType::StringContent => "string_content"@,
        TokenType::StringEnd => "string_end"@,
        TokenType::IndentedStringStart => "indented_string_start"@,
        TokenType::IndentedStringContent => "indented_string_content"@,
        TokenType::IndentedStringEnd => "indented_string_end"@,
        TokenType::InterpolationStart => "interpolation_start"@,
        TokenType::InterpolationEnd => "interpolation_end"@,
        TokenType::EscapeSequence => "escape_sequence"@,
        TokenType::Comment => "comment"@,
    }
}

impl TokenType {
    /// Every token type.
    pub fn all() -> (r: Vec<TokenType>)
        ensures
            r@ == all_token_types(),
    {
        let mut v: Vec<TokenType> = Vec::new();
        v.push(TokenType::StringStart);
        v.push(TokenType::StringContent);
        v.push(TokenType::StringEnd);
        v.push(TokenType::IndentedStringStart);
        v.push(TokenType::IndentedStringContent);
        v.push(TokenType::IndentedStringEnd);
        v.push(TokenType::InterpolationStart);
        v.push(TokenType::InterpolationEnd);
        v.push(TokenType::EscapeSequence);
        v.push(TokenType::Comment);
        proof {
            assert(v@ =~= all_token_types());
        }
        v
    }

    /// The token type's name.
    pub fn name(self) -> (r: &'static str)
        ensures
            r@ == token_type_name(self),
    {
        match self {
            TokenType::StringStart => "string_start",
            TokenType::StringContent => "string_content",
            TokenType::StringEnd => "string_end",
            TokenType::IndentedStringStart => "indented_string_start",
            TokenType::IndentedStringContent => "indented_string_content",
            TokenType::IndentedStringEnd => "indented_string_end",
            TokenType::InterpolationStart => "interpolation_start",
            TokenType::InterpolationEnd => "interpolation_end",
            TokenType::EscapeSequence => "escape_sequence",
            TokenType::Comment => "comment",
        }
    }

    /// Whether this token belongs to a string literal.
    pub fn is_string_token(self) -> (r: bool)
        ensures
            r == (self == TokenType::StringStart || self == TokenType::StringContent || self
                == TokenType::StringEnd || self == TokenType::IndentedStringStart || self
                == TokenType::IndentedStringContent || self == TokenType::IndentedStringEnd),
    {
        match self {
            TokenType::StringStart => true,
            TokenType::StringContent => true,
            TokenType::StringEnd => true,
            TokenType::IndentedStringStart => true,
            TokenType::IndentedStringContent => true,
            TokenType::IndentedStringEnd => true,
            _ => false,
        }
    }

    /// Whether this token delimits an interpolation splice.
    pub fn is_interpolation_token(self) -> (r: bool)
        ensures
            r == (self == TokenType::InterpolationStart || self == TokenType::InterpolationEnd),
    {
        match self {
            TokenType::InterpolationStart => true,
            TokenType::InterpolationEnd => true,
            _ => false,
        }
    }
}

} // verus!
