//! The plugin capability set: hooks that run around a parse.
//!
//! A plugin may rewrite source text before parsing, rework the engine's
//! tree after it, or validate the tree; each hook has a neutral default,
//! so a plugin implements only what it needs.

use vstd::prelude::*;

verus! {

use crate::error::ParseError;
use vstd::string::StrSliceExecFns;
use vstd::string::StringExecFns;

/// A parser extension with optional hooks.
///
/// The trait is meant for library users to implement; nothing is assumed
/// of a hook beyond its signature.
pub trait Plugin {
    /// The plugin's name.
    fn name(&self) -> &str;

    /// Rewrites source text before parsing; the default keeps it.
    fn pre_process(&mut self, source: String) -> (r: core::result::Result<String, ParseError>) {
        Ok(source)
    }

    /// Reworks the engine's tree after parsing; the default keeps it.
    fn post_process(&mut self, tree: tree_sitter::Tree) -> (r: core::result::Result<
        tree_sitter::Tree,
        ParseError,
    >) {
        Ok(tree)
    }

    /// Checks the engine's tree; the default accepts it.
    fn validate(&self, _tree: &tree_sitter::Tree) -> (r: core::result::Result<(), ParseError>) {
        Ok(())
    }
}

/// A plugin that would trace each phase; the hooks pass input through.
pub struct LoggingPlugin {
    name: String,
}

impl LoggingPlugin {
    /// The plugin's name, as a mathematical value.
    pub closed spec fn spec_name(&self) -> Seq<char> {
        self.name@
    }

    /// Builds the plugin.
    pub fn new() -> (r: LoggingPlugin)
        ensures
            r.spec_name() == "logging"@,
    {
        LoggingPlugin { name: String::from_str("logging") }
    }
}

impl Plugin for LoggingPlugin {
    fn name(&self) -> &str {
        self.name.as_str()
    }

    fn pre_process(&mut self, source: String) -> (r: core::result::Result<String, ParseError>) {
        Ok(source)
    }

    fn post_process(&mut self, tree: tree_sitter::Tree) -> (r: core::result::Result<
        tree_sitter::Tree,
        ParseError,
    >) {
        Ok(tree)
    }
}

/// The newline normalisation of a text: a carriage return followed by a
/// line feed collapses to the line feed, and a lone carriage return
/// becomes one.
pub open spec fn normalized_from(s: Seq<char>, i: int) -> Seq<char>
    decreases s.len() - i,
{
    if i < 0 || i >= s.len() {
        Seq::empty()
    } else if s[i] == '\r' {
        if i + 1 < s.len() && s[i + 1] == '\n' {
            seq!['\n'] + normalized_from(s, i + 2)
        } else {
            seq!['\n'] + normalized_from(s, i + 1)
        }
    } else {
        seq![s[i]] + normalized_from(s, i + 1)
    }
}

/// The newline normalisation of a whole text.
pub open spec fn normalized(s: Seq<char>) -> Seq<char> {
    normalized_from(s, 0)
}

/// Normalises line endings: both two-character and bare carriage-return
/// endings become single line feeds.
pub fn normalize_newlines(s: &str) -> (r: String)
    ensures
        r@ == normalized(s@),
{
    let n = s.unicode_len();
    let mut out = String::new();
    let mut i: usize = 0;
    while i < n
        invariant
            0 <= i <= n,
            n == s@.len(),
            normalized(s@) == out@ + normalized_from(s@, i as int),
        decreases n - i,
    {
        let c = s.get_char(i);
        let ghost prev = out@;
        if c == '\r' {
            out.push('\n');
            if i + 1 < n && s.get_char(i + 1) == '\n' {
                proof {
                    assert(out@ == prev.push('\n'));
                    assert(prev + (seq!['\n'] + normalized_from(s@, i + 2)) =~= out@
                        + normalized_from(s@, i + 2));
                }
                i = i + 2;
            } else {
                proof {
                    assert(out@ == prev.push('\n'));
                    assert(prev + (seq!['\n'] + normalized_from(s@, i + 1)) =~= out@
                        + normalized_from(s@, i + 1));
                }
                i = i + 1;
            }
        } else {
            out.push(c);
            proof {
                assert(out@ == prev.push(c));
                assert(prev + (seq![c] + normalized_from(s@, i + 1)) =~= out@ + normalized_from(
                    s@,
                    i + 1,
                ));
            }
            i = i + 1;
        }
    }
    proof {
        assert(normalized_from(s@, n as int) =~= Seq::<char>::empty());
        assert(out@ + Seq::<char>::empty() =~= out@);
    }
    out
}

/// A plugin that normalises line endings before parsing.
pub struct WhitespaceNormalizer;

impl Plugin for WhitespaceNormalizer {
    fn name(&self) -> &str {
        "whitespace_normalizer"
    }

    fn pre_process(&mut self, source: String) -> (r: core::result::Result<String, ParseError>) {
        Ok(normalize_newlines(source.as_str()))
    }
}

} // verus!
