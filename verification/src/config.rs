//! Parser configuration and language-version targeting.

use vstd::prelude::*;

verus! {

use crate::strutil::str_eq;

/// The language versions the parser can target.
#[derive(Debug, Clone, Copy, PartialEq, Eq, Hash, Structural)]
pub enum LanguageVersion {
    /// The 2.3 long-term release.
    Nix23,
    /// The 2.4 release.
    Nix24,
    /// The 2.8 release.
    Nix28,
    /// The 2.18 release.
    Nix218,
    /// The newest stable version.
    Latest,
    /// The newest version with experimental features switched on.
    Experimental,
}

/// Every language version, in declaration order.
pub open spec fn all_language_versions() -> Seq<LanguageVersion> {
    seq![
        LanguageVersion::Nix23,
        LanguageVersion::Nix24,
        LanguageVersion::Nix28,
        LanguageVersion::Nix218,
        LanguageVersion::Latest,
        LanguageVersion::Experimental,
    ]
}

/// The name of each language version.
pub open spec fn language_version_name(v: LanguageVersion) -> Seq<char> {
    match v {
        LanguageVersion::Nix23 => "2.3"@,
        LanguageVersion::Nix24 => "2.4"@,
        LanguageVersion::Nix28 => "2.8"@,
        LanguageVersion::Nix218 => "2.18"@,
        LanguageVersion::Latest => "latest"@,
        LanguageVersion::Experimental => "experimental"@,
    }
}

impl LanguageVersion {
    /// Every supported language version.
    pub fn all() -> (r: Vec<LanguageVersion>)
        ensures
            r@ == all_language_versions(),
    {
        let mut v: Vec<LanguageVersion> = Vec::new();
        v.push(LanguageVersion::Nix23);
        v.push(LanguageVersion::Nix24);
        v.push(LanguageVersion::Nix28);
        v.push(LanguageVersion::Nix218);
        v.push(LanguageVersion::Latest);
        v.push(LanguageVersion::Experimental);
        proof {
            assert(v@ =~= all_language_versions());
        }
        v
    }

    /// The version's name.
    pub fn as_str(self) -> (r: &'static str)
        ensures
            r@ == language_version_name(self),
    {
        match self {
            LanguageVersion::Nix23 => "2.3",
            LanguageVersion::Nix24 => "2.4",
            LanguageVersion::Nix28 => "2.8",
            LanguageVersion::Nix218 => "2.18",
            LanguageVersion::Latest => "latest",
            LanguageVersion::Experimental => "experimental",
        }
    }

    /// Whether flakes are available in this version.
    pub fn supports_flakes(self) -> (r: bool)
        ensures
            r == (self != LanguageVersion::Nix23),
    {
        match self {
            LanguageVersion::Nix23 => false,
            _ => true,
        }
    }

    /// Whether the `or` keyword is available; every version keeps it.
    pub fn supports_or_keyword(self) -> (r: bool)
        ensures
            r == true,
    {
        true
    }

    /// Whether float literals may use scientific notation.
    pub fn supports_scientific_notation(self) -> (r: bool)
        ensures
            r == (self == LanguageVersion::Nix28 || self == LanguageVersion::Nix218 || self
                == LanguageVersion::Latest || self == LanguageVersion::Experimental),
    {
        match self {
            LanguageVersion::Nix28 => true,
            LanguageVersion::Nix218 => true,
            LanguageVersion::Latest => true,
            LanguageVersion::Experimental => true,
            _ => false,
        }
    }
}

impl Default for LanguageVersion {
    /// The default target is the newest stable version.
    fn default() -> (r: Self)
        ensures
            r == LanguageVersion::Latest,
    {
        LanguageVersion::Latest
    }
}

/// Configuration of the parser's behaviour.
///
/// Feature flags are kept as a list of `(name, value)` pairs in the order
/// they were set; the last entry for a name wins.
#[derive(Debug)]
pub struct ParserConfig {
    /// Whether a result with syntax errors passes validation.
    pub allow_errors: bool,
    /// Whether results are validated after parsing.
    pub validate_output: bool,
    /// Whether incremental reparsing is used.
    pub incremental_parsing: bool,
    /// The language version to target.
    pub language_version: LanguageVersion,
    /// Whether locations are kept on expression nodes.
    pub include_locations: bool,
    /// Whether comments are kept in the tree.
    pub include_comments: bool,
    /// Whether whitespace is preserved.
    pub preserve_whitespace: bool,
    /// The nesting bound that guards lowering against stack exhaustion.
    pub max_nesting_depth: Option<usize>,
    /// Named feature switches, later entries overriding earlier ones.
    pub feature_flags: Vec<(String, bool)>,
    /// A parse-time bound in milliseconds, accepted but not enforced.
    pub timeout_ms: Option<u64>,
    /// Whether statistics are gathered for each result.
    pub collect_statistics: bool,
}

/// The mathematical value of a `ParserConfig`.
#[verifier::ext_equal]
pub struct ConfigModel {
    pub allow_errors: bool,
    pub validate_output: bool,
    pub incremental_parsing: bool,
    pub language_version: LanguageVersion,
    pub include_locations: bool,
    pub include_comments: bool,
    pub preserve_whitespace: bool,
    pub max_nesting_depth: Option<usize>,
    pub feature_flags: Seq<(Seq<char>, bool)>,
    pub timeout_ms: Option<u64>,
    pub collect_statistics: bool,
}

/// The value of a named flag: the last entry for the name, if any.
pub open spec fn flag_value(flags: Seq<(Seq<char>, bool)>, name: Seq<char>) -> Option<bool>
    decreases flags.len(),
{
    if flags.len() == 0 {
        None
    } else if flags.last().0 == name {
        Some(flags.last().1)
    } else {
        flag_value(flags.drop_last(), name)
    }
}

impl ParserConfig {
    /// The mathematical value of this configuration.
    pub open spec fn model(&self) -> ConfigModel {
        ConfigModel {
            allow_errors: self.allow_errors,
            validate_output: self.validate_output,
            incremental_parsing: self.incremental_parsing,
            language_version: self.language_version,
            include_locations: self.include_locations,
            include_comments: self.include_comments,
            preserve_whitespace: self.preserve_whitespace,
            max_nesting_depth: self.max_nesting_depth,
            feature_flags: Seq::new(
                self.feature_flags.len() as nat,
                |i: int| (self.feature_flags[i].0@, self.feature_flags[i].1),
            ),
            timeout_ms: self.timeout_ms,
            collect_statistics: self.collect_statistics,
        }
    }
}

impl View for ParserConfig {
    type V = ConfigModel;

    open spec fn view(&self) -> ConfigModel {
        self.model()
    }
}

/// The configuration every parser starts from.
pub open spec fn default_config_model() -> ConfigModel {
    ConfigModel {
        allow_errors: true,
        validate_output: false,
        incremental_parsing: true,
        language_version: LanguageVersion::Latest,
        include_locations: true,
        include_comments: false,
        preserve_whitespace: false,
        max_nesting_depth: Some(1000usize),
        feature_flags: Seq::empty(),
        timeout_ms: None,
        collect_statistics: false,
    }
}

impl Default for ParserConfig {
    /// The default configuration: lenient to errors, incremental, with
    /// locations kept and a nesting bound of one thousand.
    fn default() -> (r: Self)
        ensures
            r@ == default_config_model(),
    {
        let r = ParserConfig {
            allow_errors: true,
            validate_output: false,
            incremental_parsing: true,
            language_version: LanguageVersion::Latest,
            include_locations: true,
            include_comments: false,
            preserve_whitespace: false,
            max_nesting_depth: Some(1000),
            feature_flags: Vec::new(),
            timeout_ms: None,
            collect_statistics: false,
        };
        proof {
            assert(r@ =~= default_config_model());
        }
        r
    }
}

impl Clone for ParserConfig {
    /// Clones the configuration, keeping its mathematical value.
    fn clone(&self) -> (res: Self)
        ensures
            res@ == self@,
    {
        let mut flags: Vec<(String, bool)> = Vec::new();
        let mut i: usize = 0;
        while i < self.feature_flags.len()
            invariant
                0 <= i <= self.feature_flags.len(),
                flags@.len() == i,
                forall|j: int|
                    0 <= j < i ==> #[trigger] flags@[j].0@ == self.feature_flags@[j].0@
                        && flags@[j].1 == self.feature_flags@[j].1,
            decreases self.feature_flags.len() - i,
        {
            let name = self.feature_flags[i].0.clone();
            let value = self.feature_flags[i].1;
            flags.push((name, value));
            i = i + 1;
        }
        let r = ParserConfig {
            allow_errors: self.allow_errors,
            validate_output: self.validate_output,
            incremental_parsing: self.incremental_parsing,
            language_version: self.language_version,
            include_locations: self.include_locations,
            include_comments: self.include_comments,
            preserve_whitespace: self.preserve_whitespace,
            max_nesting_depth: self.max_nesting_depth,
            feature_flags: flags,
            timeout_ms: self.timeout_ms,
            collect_statistics: self.collect_statistics,
        };
        proof {
            assert(r@.feature_flags =~= self@.feature_flags);
            assert(r@ =~= self@);
        }
        r
    }
}

impl ParserConfig {
    /// Starts a configuration builder.
    pub fn builder() -> (r: ParserConfigBuilder)
        ensures
            r.config@ == default_config_model(),
    {
        ParserConfigBuilder::new()
    }

    /// A strict configuration: errors fail validation.
    pub fn strict() -> (r: ParserConfig)
        ensures
            r@ == (ConfigModel {
                allow_errors: false,
                validate_output: true,
                ..default_config_model()
            }),
    {
        let mut r = ParserConfig::default();
        r.allow_errors = false;
        r.validate_output = true;
        proof {
            assert(r@ =~= (ConfigModel {
                allow_errors: false,
                validate_output: true,
                ..default_config_model()
            }));
        }
        r
    }

    /// A lenient configuration, suited to editors: errors pass, comments
    /// and whitespace are kept.
    pub fn lenient() -> (r: ParserConfig)
        ensures
            r@ == (ConfigModel {
                include_comments: true,
                preserve_whitespace: true,
                ..default_config_model()
            }),
    {
        let mut r = ParserConfig::default();
        r.allow_errors = true;
        r.validate_output = false;
        r.include_comments = true;
        r.preserve_whitespace = true;
        proof {
            assert(r@ =~= (ConfigModel {
                include_comments: true,
                preserve_whitespace: true,
                ..default_config_model()
            }));
        }
        r
    }

    /// A performance-minded configuration: no locations or comments, a
    /// tighter nesting bound, and statistics switched on.
    pub fn performance() -> (r: ParserConfig)
        ensures
            r@ == (ConfigModel {
                include_locations: false,
                max_nesting_depth: Some(500usize),
                collect_statistics: true,
                ..default_config_model()
            }),
    {
        let mut r = ParserConfig::default();
        r.allow_errors = true;
        r.validate_output = false;
        r.include_locations = false;
        r.include_comments = false;
        r.preserve_whitespace = false;
        r.incremental_parsing = true;
        r.max_nesting_depth = Some(500);
        r.collect_statistics = true;
        proof {
            assert(r@ =~= (ConfigModel {
                include_locations: false,
                max_nesting_depth: Some(500usize),
                collect_statistics: true,
                ..default_config_model()
            }));
        }
        r
    }

    /// Switches a feature flag on.
    pub fn enable_feature(&mut self, name: String)
        ensures
            final(self)@ == (ConfigModel {
                feature_flags: old(self)@.feature_flags.push((name@, true)),
                ..old(self)@
            }),
    {
        self.feature_flags.push((name, true));
        proof {
            assert(final(self)@.feature_flags =~= old(self)@.feature_flags.push((name@, true)));
            assert(final(self)@ =~= (ConfigModel {
                feature_flags: old(self)@.feature_flags.push((name@, true)),
                ..old(self)@
            }));
        }
    }

    /// Switches a feature flag off.
    pub fn disable_feature(&mut self, name: String)
        ensures
            final(self)@ == (ConfigModel {
                feature_flags: old(self)@.feature_flags.push((name@, false)),
                ..old(self)@
            }),
    {
        self.feature_flags.push((name, false));
        proof {
            assert(final(self)@.feature_flags =~= old(self)@.feature_flags.push((name@, false)));
            assert(final(self)@ =~= (ConfigModel {
                feature_flags: old(self)@.feature_flags.push((name@, false)),
                ..old(self)@
            }));
        }
    }

    /// Whether a feature flag is on; a flag never set is off.
    pub fn is_feature_enabled(&self, name: &str) -> (r: bool)
        ensures
            r == (flag_value(self@.feature_flags, name@) == Some(true)),
    {
        let mut i: usize = self.feature_flags.len();
        proof {
            assert(self@.feature_flags.len() == self.feature_flags.len());
            assert(self@.feature_flags.subrange(0, i as int) =~= self@.feature_flags);
        }
        while i > 0
            invariant
                0 <= i <= self.feature_flags.len(),
                self@.feature_flags.len() == self.feature_flags.len(),
                flag_value(self@.feature_flags, name@) == flag_value(
                    self@.feature_flags.subrange(0, i as int),
                    name@,
                ),
            decreases i,
        {
            i = i - 1;
            if str_eq(self.feature_flags[i].0.as_str(), name) {
                proof {
                    let pre = self@.feature_flags.subrange(0, i + 1);
                    assert(pre.last() == self@.feature_flags[i as int]);
                    assert(self@.feature_flags[i as int].0 == name@);
                    assert(flag_value(pre, name@) == Some(self@.feature_flags[i as int].1));
                }
                return self.feature_flags[i].1;
            }
            proof {
                let pre = self@.feature_flags.subrange(0, i + 1);
                assert(pre.last() == self@.feature_flags[i as int]);
                assert(self@.feature_flags[i as int].0 != name@);
                assert(pre.drop_last() =~= self@.feature_flags.subrange(0, i as int));
            }
        }
        proof {
            assert(self@.feature_flags.subrange(0, 0) =~= Seq::<(Seq<char>, bool)>::empty());
        }
        false
    }
}

/// Fluent builder for `ParserConfig`.
#[derive(Debug)]
pub struct ParserConfigBuilder {
    /// The configuration being built.
    pub config: ParserConfig,
}

impl ParserConfigBuilder {
    /// Starts from the default configuration.
    pub fn new() -> (r: Self)
        ensures
            r.config@ == default_config_model(),
    {
        ParserConfigBuilder { config: ParserConfig::default() }
    }

    /// Sets whether errors pass validation.
    pub fn allow_errors(self, allow: bool) -> (r: Self)
        ensures
            r.config@ == (ConfigModel { allow_errors: allow, ..self.config@ }),
    {
        let mut b = self;
        b.config.allow_errors = allow;
        proof {
            assert(b.config@ =~= (ConfigModel { allow_errors: allow, ..self.config@ }));
        }
        b
    }

    /// Sets whether results are validated after parsing.
    pub fn validate_output(self, validate: bool) -> (r: Self)
        ensures
            r.config@ == (ConfigModel { validate_output: validate, ..self.config@ }),
    {
        let mut b = self;
        b.config.validate_output = validate;
        proof {
            assert(b.config@ =~= (ConfigModel { validate_output: validate, ..self.config@ }));
        }
        b
    }

    /// Sets the language version to target.
    pub fn language_version(self, version: LanguageVersion) -> (r: Self)
        ensures
            r.config@ == (ConfigModel { language_version: version, ..self.config@ }),
    {
        let mut b = self;
        b.config.language_version = version;
        proof {
            assert(b.config@ =~= (ConfigModel { language_version: version, ..self.config@ }));
        }
        b
    }

    /// Sets whether locations are kept on expression nodes.
    pub fn include_locations(self, enabled: bool) -> (r: Self)
        ensures
            r.config@ == (ConfigModel { include_locations: enabled, ..self.config@ }),
    {
        let mut b = self;
        b.config.include_locations = enabled;
        proof {
            assert(b.config@ =~= (ConfigModel { include_locations: enabled, ..self.config@ }));
        }
        b
    }

    /// Sets whether comments are kept.
    pub fn include_comments(self, enabled: bool) -> (r: Self)
        ensures
            r.config@ == (ConfigModel { include_comments: enabled, ..self.config@ }),
    {
        let mut b = self;
        b.config.include_comments = enabled;
        proof {
            assert(b.config@ =~= (ConfigModel { include_comments: enabled, ..self.config@ }));
        }
        b
    }

    /// Sets whether whitespace is preserved.
    pub fn preserve_whitespace(self, preserve: bool) -> (r: Self)
        ensures
            r.config@ == (ConfigModel { preserve_whitespace: preserve, ..self.config@ }),
    {
        let mut b = self;
        b.config.preserve_whitespace = preserve;
        proof {
            assert(b.config@ =~= (ConfigModel { preserve_whitespace: preserve, ..self.config@ }));
        }
        b
    }

    /// Sets the nesting bound.
    pub fn max_nesting_depth(self, depth: Option<usize>) -> (r: Self)
        ensures
            r.config@ == (ConfigModel { max_nesting_depth: depth, ..self.config@ }),
    {
        let mut b = self;
        b.config.max_nesting_depth = depth;
        proof {
            assert(b.config@ =~= (ConfigModel { max_nesting_depth: depth, ..self.config@ }));
        }
        b
    }

    /// Sets the accepted parse-time bound.
    pub fn timeout_ms(self, timeout: Option<u64>) -> (r: Self)
        ensures
            r.config@ == (ConfigModel { timeout_ms: timeout, ..self.config@ }),
    {
        let mut b = self;
        b.config.timeout_ms = timeout;
        proof {
            assert(b.config@ =~= (ConfigModel { timeout_ms: timeout, ..self.config@ }));
        }
        b
    }

    /// Sets whether statistics are gathered.
    pub fn collect_statistics(self, collect: bool) -> (r: Self)
        ensures
            r.config@ == (ConfigModel { collect_statistics: collect, ..self.config@ }),
    {
        let mut b = self;
        b.config.collect_statistics = collect;
        proof {
            assert(b.config@ =~= (ConfigModel { collect_statistics: collect, ..self.config@ }));
        }
        b
    }

    /// Switches a feature flag on.
    pub fn enable_feature(self, name: String) -> (r: Self)
        ensures
            r.config@ == (ConfigModel {
                feature_flags: self.config@.feature_flags.push((name@, true)),
                ..self.config@
            }),
    {
        let mut b = self;
        b.config.enable_feature(name);
        b
    }

    /// Hands the finished configuration out.
    pub fn build(self) -> (r: ParserConfig)
        ensures
            r@ == self.config@,
    {
        self.config
    }
}

impl Default for ParserConfigBuilder {
    /// A fresh builder over the default configuration.
    fn default() -> (r: Self)
        ensures
            r.config@ == default_config_model(),
    {
        ParserConfigBuilder::new()
    }
}

} // verus!
