//! The high-level parser: configuration, the optional result cache, and
//! the engine behind them.

use vstd::prelude::*;

verus! {

use crate::cache::ParseCache;
use crate::config::ConfigModel;
use crate::config::ParserConfig;
use crate::engine::cst_of;
use crate::error::ParseError;
use crate::result::DiagnosticSeverity;
use crate::result::ParseResult;
use crate::result::ParseStats;
use crate::result::collect_pdiags;
use crate::result::has_severity;
use crate::strutil::usize_to_string;
use vstd::string::StringExecFns;

/// The least engine interface version the library accepts.
pub const MIN_TREE_SITTER_ABI: u32 = 13;

/// Whether a result is the parse of the given source text: its tree is
/// the engine's tree for the text, it carries the text, and its
/// diagnostics are the collector's walk of that tree.
pub open spec fn result_valid(res: &ParseResult, source: Seq<char>) -> bool {
    &&& res.spec_cst() == cst_of(source)
    &&& res.spec_source() == source
    &&& res.spec_diags() == collect_pdiags(cst_of(source))
}

/// The two errors a parse itself can raise: the validation rejection,
/// and the engine handing no tree back.
pub open spec fn is_parse_error(e: crate::error::ParseErrorModel) -> bool {
    e == crate::error::ParseErrorModel::ValidationError(
        "Parse result contains errors but allow_errors is false"@,
    ) || e == crate::error::ParseErrorModel::ParseFailed("Tree-sitter parse returned None"@)
}

/// The main parser for source text.
pub struct NixParser {
    language: tree_sitter::Language,
    config: ParserConfig,
    cache: Option<ParseCache>,
}

impl NixParser {
    /// The parser's configuration value.
    pub closed spec fn spec_config(&self) -> ConfigModel {
        self.config@
    }

    /// Whether the parser's cache, if any, holds only genuine parses.
    pub closed spec fn wf(&self) -> bool {
        match &self.cache {
            Some(c) => c.wf(),
            None => true,
        }
    }

    /// Builds a parser with the default configuration.
    pub fn new() -> (r: core::result::Result<NixParser, ParseError>)
        ensures
            r matches Ok(p) ==> p.wf() && p.spec_config()
                == crate::config::default_config_model(),
    {
        NixParser::with_config(ParserConfig::default())
    }

    /// Builds a parser with the given configuration, checking that the
    /// grammar loads and its interface version is recent enough.
    pub fn with_config(config: ParserConfig) -> (r: core::result::Result<NixParser, ParseError>)
        ensures
            r matches Ok(p) ==> p.wf() && p.spec_config() == config@,
    {
        let language = crate::engine::language();
        let abi = crate::engine::language_abi_version(&language);
        if abi < MIN_TREE_SITTER_ABI as usize {
            let mut msg = String::new();
            msg.append("Incompatible Tree-sitter ABI version: ");
            let a = usize_to_string(abi);
            msg.append(a.as_str());
            msg.append(" < ");
            let b = usize_to_string(MIN_TREE_SITTER_ABI as usize);
            msg.append(b.as_str());
            return Err(ParseError::LanguageError(msg));
        }
        Ok(NixParser { language, config, cache: None })
    }

    /// The parser's configuration.
    pub fn config(&self) -> (r: &ParserConfig)
        ensures
            r@ == self.spec_config(),
    {
        &self.config
    }

    /// Replaces the configuration.
    pub fn set_config(&mut self, config: ParserConfig)
        ensures
            final(self).spec_config() == config@,
            old(self).wf() ==> final(self).wf(),
    {
        self.config = config;
    }

    /// The grammar engine's language value.
    pub fn language(&self) -> &tree_sitter::Language {
        &self.language
    }

    /// Attaches a result cache.  The cache must hold only genuine
    /// parses; a fresh cache does.
    pub fn enable_cache(&mut self, cache: ParseCache)
        requires
            cache.wf(),
        ensures
            final(self).wf(),
            final(self).spec_config() == old(self).spec_config(),
    {
        self.cache = Some(cache);
    }

    /// Attaches a fresh, empty result cache with the given capacity.
    pub fn enable_fresh_cache(&mut self, capacity: usize)
        ensures
            final(self).wf(),
            final(self).spec_config() == old(self).spec_config(),
    {
        let cache = ParseCache::new(capacity);
        self.enable_cache(cache);
    }

    /// Detaches the result cache.
    pub fn disable_cache(&mut self)
        ensures
            final(self).wf(),
            final(self).spec_config() == old(self).spec_config(),
    {
        self.cache = None;
    }

    /// Parses source text from scratch.
    pub fn parse(&mut self, source: &str) -> (r: core::result::Result<ParseResult, ParseError>)
        requires
            old(self).wf(),
        ensures
            final(self).wf(),
            final(self).spec_config() == old(self).spec_config(),
            r matches Ok(res) ==> result_valid(&res, source@),
            r matches Ok(res) ==> res.coherent(),
            r matches Err(e) ==> is_parse_error(e@),
            (old(self).spec_config().validate_output && !old(self).spec_config().allow_errors)
                ==> (r matches Ok(res) ==> !has_severity(
                res.spec_diags(),
                DiagnosticSeverity::Error,
            )),
    {
        let r = self.parse_with_context(source, None);
        match r {
            Ok(res) => Ok(res),
            Err(e) => Err(e),
        }
    }

    /// Parses source text, reusing an earlier tree as a hint when one is
    /// given.  A cache hit returns a copy of the stored result; a fresh
    /// parse without a hint is cached after statistics and validation.
    pub fn parse_with_context(&mut self, source: &str, old_tree: Option<&tree_sitter::Tree>) -> (r:
        core::result::Result<ParseResult, ParseError>)
        requires
            old(self).wf(),
        ensures
            final(self).wf(),
            final(self).spec_config() == old(self).spec_config(),
            r matches Ok(res) ==> res.spec_source() == source@ && res.coherent(),
            old_tree is None ==> (r matches Ok(res) ==> result_valid(&res, source@)),
            r matches Err(e) ==> is_parse_error(e@),
            (old(self).spec_config().validate_output && !old(self).spec_config().allow_errors)
                ==> (r matches Ok(res) ==> !has_severity(
                res.spec_diags(),
                DiagnosticSeverity::Error,
            )),
    {
        // A cache hit returns the stored result before the engine runs.
        let mut hit: Option<ParseResult> = None;
        match &mut self.cache {
            Some(cache) => {
                match cache.get(source) {
                    Some(res) => {
                        proof {
                            crate::cache::lemma_wf_entry(cache, source@);
                        }
                        hit = Some(res);
                    },
                    None => {},
                }
            },
            None => {},
        }
        match hit {
            Some(res) => {
                if self.config.validate_output {
                    match self.validate_result(&res) {
                        Ok(()) => {},
                        Err(e) => {
                            return Err(e);
                        },
                    }
                }
                return Ok(res);
            },
            None => {},
        }
        let parsed = match old_tree {
            None => crate::engine::parse_source(source),
            Some(t) => crate::engine::reparse_source(source, t),
        };
        match parsed {
            None => Err(
                ParseError::ParseFailed(String::from_str("Tree-sitter parse returned None")),
            ),
            Some(p) => {
                let (tree, cst) = p;
                let mut result = match ParseResult::from_tree(tree, cst, source.to_owned()) {
                    Ok(res) => res,
                    Err(e) => {
                        return Err(e);
                    },
                };
                if self.config.collect_statistics {
                    self.add_parse_statistics(&mut result);
                }
                if self.config.validate_output {
                    match self.validate_result(&result) {
                        Ok(()) => {},
                        Err(e) => {
                            return Err(e);
                        },
                    }
                }
                match old_tree {
                    None => {
                        match &mut self.cache {
                            Some(cache) => {
                                let copy = result.duplicate();
                                cache.insert(source.to_owned(), copy);
                            },
                            None => {},
                        }
                    },
                    Some(_) => {},
                }
                Ok(result)
            },
        }
    }

    /// Gathers statistics for a result; the timing field is a
    /// placeholder of one millisecond.
    fn add_parse_statistics(&self, result: &mut ParseResult)
        ensures
            final(result).spec_cst() == old(result).spec_cst(),
            final(result).spec_source() == old(result).spec_source(),
            final(result).spec_diags() == old(result).spec_diags(),
            final(result).spec_stats() is Some,
    {
        let stats = ParseStats::from_result(result, 1, false);
        result.set_statistics(Some(stats));
    }

    /// Rejects a result that holds errors when the configuration does
    /// not allow them.
    fn validate_result(&self, result: &ParseResult) -> (r: core::result::Result<(), ParseError>)
        ensures
            r is Ok <==> (self.spec_config().allow_errors || !has_severity(
                result.spec_diags(),
                DiagnosticSeverity::Error,
            )),
            r matches Err(e) ==> e@ == crate::error::ParseErrorModel::ValidationError(
                "Parse result contains errors but allow_errors is false"@,
            ),
    {
        if result.has_errors() && !self.config.allow_errors {
            return Err(
                ParseError::ValidationError(
                    String::from_str("Parse result contains errors but allow_errors is false"),
                ),
            );
        }
        Ok(())
    }
}

} // verus!
