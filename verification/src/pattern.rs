use crate::constants::DOT_PATTERN;
use crate::error::ScanError;
use vstd::prelude::*;

verus! {

/// Whether `pattern` compiles as a regular expression under the given
/// case-insensitivity choice. Compilation success depends on the pattern
/// text and the flag alone.
pub uninterp spec fn regex_compiles(pattern: Seq<char>, case_insensitive: bool) -> bool;

/// Whether the regex compiled from `pattern` under the given
/// case-insensitivity choice matches `haystack`. The answer depends on
/// these three values alone.
pub uninterp spec fn regex_match(
    pattern: Seq<char>,
    case_insensitive: bool,
    haystack: Seq<u8>,
) -> bool;

/// The regex text a glob pattern translates to, or `None` when the glob
/// is invalid. Translation depends on the glob text alone.
pub uninterp spec fn glob_regex_of(pattern: Seq<char>) -> Option<Seq<char>>;

#[verifier::external_type_specification]
#[verifier::external_body]
pub struct ExRegex(regex::bytes::Regex);

/// A compiled matcher, carrying (in ghost form) the pattern text and flag
/// it was built from. Built once before traversal starts and shared
/// read-only by all workers.
pub struct CompiledMatcher {
    re: regex::bytes::Regex,
    pattern: Ghost<Seq<char>>,
    case_insensitive: Ghost<bool>,
}

impl CompiledMatcher {
    /// The pattern text this matcher was compiled from.
    pub closed spec fn spec_pattern(&self) -> Seq<char> {
        self.pattern@
    }

    /// Whether it was compiled case-insensitively.
    pub closed spec fn spec_case_insensitive(&self) -> bool {
        self.case_insensitive@
    }

    /// Relies on `regex::bytes::Regex::is_match`: the answer is a function
    /// of the compiled pattern, its case-insensitivity flag and the
    /// haystack bytes alone. The ghost fields name that pattern and flag
    /// faithfully because a `CompiledMatcher` is only ever built by
    /// [`build_regex`], which stores the same pattern it compiles.
    #[verifier::external_body]
    pub(crate) fn is_match(&self, haystack: &[u8]) -> (r: bool)
        ensures
            r == regex_match(self.spec_pattern(), self.spec_case_insensitive(), haystack@),
    {
        self.re.is_match(haystack)
    }
}

/// Relies on `regex::bytes::RegexBuilder`: `new(pattern)`,
/// `case_insensitive(flag)` and `build()`, whose success is a function of
/// the pattern text and the flag alone.
#[verifier::external_body]
fn regex_builder_build(pattern: &str, case_insensitive: bool) -> (r: Result<
    regex::bytes::Regex,
    regex::Error,
>)
    ensures
        r is Ok <==> regex_compiles(pattern@, case_insensitive),
{
    regex::bytes::RegexBuilder::new(pattern).case_insensitive(case_insensitive).build()
}

/// Compiles `pattern` into a matcher, mapping a compilation failure into
/// the library's error type. The `case_sensitive` flag is honored at
/// compile time, not per match: when it is not set, the builder's
/// case-insensitivity switch is enabled.
pub fn build_regex(pattern: &str, case_sensitive: bool) -> (r: Result<CompiledMatcher, ScanError>)
    ensures
        r is Ok <==> regex_compiles(pattern@, !case_sensitive),
        r matches Ok(m) ==> m.spec_pattern() == pattern@ && m.spec_case_insensitive()
            == !case_sensitive,
        r matches Err(e) ==> e is Regex,
{
    match regex_builder_build(pattern, !case_sensitive) {
        Ok(re) => Ok(
            CompiledMatcher {
                re,
                pattern: Ghost(pattern@),
                case_insensitive: Ghost(!case_sensitive),
            },
        ),
        Err(e) => Err(ScanError::Regex(e)),
    }
}

/// Relies on `fnmatch_regex2::glob_to_regex`: whether a glob translates,
/// and to which regex text, is a function of the glob text alone.
#[verifier::external_body]
fn glob_to_regex_str(pattern: &str) -> (r: Option<String>)
    ensures
        match r {
            Some(s) => glob_regex_of(pattern@) == Some(s@),
            None => glob_regex_of(pattern@) is None,
        },
{
    fnmatch_regex2::glob_to_regex(pattern).ok().map(|re| re.as_str().to_owned())
}

/// Translates a glob pattern into regex text. An untranslatable glob is a
/// fatal pattern error: no partial or fallback matching is defined.
pub fn process_glob_regex(glob_pattern: &str) -> (r: Result<String, ScanError>)
    ensures
        r matches Ok(s) ==> glob_regex_of(glob_pattern@) == Some(s@),
        r matches Err(e) ==> glob_regex_of(glob_pattern@) is None && e is Other,
        r is Ok <==> glob_regex_of(glob_pattern@) is Some,
{
    match glob_to_regex_str(glob_pattern) {
        Some(s) => Ok(s),
        None => Err(ScanError::Other("this cannot be processed as a glob pattern".to_owned())),
    }
}

/// Whether `pattern` is the sentinel "match all" value, which bypasses
/// compiled matching entirely. It must never be confused with an empty
/// pattern: only the designated sentinel text counts.
pub open spec fn spec_is_match_all(pattern: Seq<char>) -> bool {
    pattern == DOT_PATTERN@
}

/// Tests for the sentinel "match all" pattern.
pub fn is_match_all(pattern: &String) -> (r: bool)
    ensures
        r == spec_is_match_all(pattern@),
{
    let d: String = DOT_PATTERN.to_owned();
    *pattern == d
}

/// The regex text a run will actually compile: the glob translation in
/// glob mode (`None` when the glob is invalid), else the pattern itself.
pub open spec fn effective_pattern_of(pattern: Seq<char>, use_glob: bool) -> Option<Seq<char>> {
    if use_glob {
        glob_regex_of(pattern)
    } else {
        Some(pattern)
    }
}

/// Builds the matcher of a run: `Ok(None)` for the sentinel pattern,
/// `Ok(Some(..))` for a pattern that compiles, an error otherwise. In glob
/// mode the pattern is translated first, and an untranslatable glob fails
/// even when the pattern is the sentinel, mirroring the order in which a
/// run prepares its matcher.
pub fn build_matcher(pattern: &String, use_glob: bool, case_sensitive: bool) -> (r: Result<
    Option<CompiledMatcher>,
    ScanError,
>)
    ensures
        ({
            let eff = effective_pattern_of(pattern@, use_glob);
            &&& (r matches Ok(None) <==> eff is Some && spec_is_match_all(pattern@))
            &&& (r matches Ok(Some(m)) ==> m.spec_pattern() == eff->0 && m.spec_case_insensitive()
                == !case_sensitive)
            &&& ((r is Ok && r->Ok_0 is Some) <==> eff is Some && !spec_is_match_all(pattern@)
                && regex_compiles(eff->0, !case_sensitive))
            &&& (r matches Err(e) ==> if eff is None {
                e is Other
            } else {
                e is Regex
            })
        }),
{
    let pattern_to_use: String = if use_glob {
        match process_glob_regex(pattern.as_str()) {
            Ok(s) => s,
            Err(e) => {
                return Err(e);
            },
        }
    } else {
        pattern.clone()
    };
    if is_match_all(pattern) {
        Ok(None)
    } else {
        match build_regex(pattern_to_use.as_str(), case_sensitive) {
            Ok(m) => Ok(Some(m)),
            Err(e) => Err(e),
        }
    }
}

} // verus!
