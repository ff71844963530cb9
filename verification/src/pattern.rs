//! Compiled search patterns.
//!
//! Regular-expression compilation and matching are delegated to the `regex`
//! crate. A compiled pattern remembers, as ghost state, the pattern text and
//! case flag it was built from, so that a match result can be stated as a
//! function of those values.

use vstd::prelude::*;

verus! {

/// The `regex` crate's compiled regular expression, opaque to this library.
#[verifier::external_type_specification]
#[verifier::external_body]
pub struct ExRegex(regex::Regex);

/// Whether `pattern` compiles as a regular expression under the given case
/// flag; a function of the two values alone, exactly as
/// `regex::RegexBuilder::build` decides it.
pub uninterp spec fn regex_compiles(pattern: Seq<char>, case_insensitive: bool) -> bool;

/// Whether the regular expression `pattern`, compiled under the given case
/// flag, matches anywhere in `text`; a function of the three values alone,
/// exactly as `regex::Regex::is_match` decides it. Meaningful only when
/// [`regex_compiles`] holds of the pattern.
pub uninterp spec fn regex_match(pattern: Seq<char>, case_insensitive: bool, text: Seq<char>) -> bool;

/// A compiled regular expression together with the pattern text and case
/// flag it was compiled from. The compiled form is private: only
/// [`compile_pattern`] constructs this type, so the `regex` field is always
/// the compilation of exactly the `pattern` and `case_insensitive` fields.
pub struct CompiledPattern {
    regex: regex::Regex,
    pattern: String,
    case_insensitive: bool,
}

impl CompiledPattern {
    /// The pattern text this value was compiled from.
    pub closed spec fn pattern_view(&self) -> Seq<char> {
        self.pattern@
    }

    /// The case flag this value was compiled with.
    pub closed spec fn case_flag(&self) -> bool {
        self.case_insensitive
    }
}

/// Relies on `regex::RegexBuilder`: `new(pattern)` with `case_insensitive`
/// set and then `build()` succeeds or fails as a function of the pattern and
/// the flag alone, and yields the compiled form of exactly that pattern.
#[verifier::external_body]
pub fn compile_pattern(pattern: &str, case_insensitive: bool) -> (r: Option<CompiledPattern>)
    ensures
        (r is Some) == regex_compiles(pattern@, case_insensitive),
        r matches Some(p) ==> p.pattern_view() == pattern@ && p.case_flag() == case_insensitive,
{
    match regex::RegexBuilder::new(pattern).case_insensitive(case_insensitive).build() {
        Ok(re) => Some(
            CompiledPattern { regex: re, pattern: pattern.to_owned(), case_insensitive },
        ),
        Err(_) => None,
    }
}

/// Relies on `regex::Regex::is_match`: whether the compiled pattern matches
/// anywhere in `text`, a function of the pattern, its case flag and the
/// text alone (the `regex` field is the compilation of the `pattern` field,
/// see [`CompiledPattern`]).
#[verifier::external_body]
pub fn pattern_matches(p: &CompiledPattern, text: &str) -> (b: bool)
    ensures
        b == regex_match(p.pattern_view(), p.case_flag(), text@),
{
    p.regex.is_match(text)
}

} // verus!
