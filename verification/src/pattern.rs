//! Search patterns: the regex that symbol names are held against, and the one that files are
//! grepped for.

use vstd::prelude::*;
use grep_regex::{RegexMatcher, RegexMatcherBuilder};
use regex_cursor::engines::meta::{Builder, Regex};
use regex_cursor::regex_automata::util::syntax::Config;
use regex_cursor::{Input, RopeyCursor};
use ropey::Rope;
use crate::rope::{byte_len, rope_text};

verus! {

/// `regex_cursor`'s `Regex`, which searches a rope without joining its chunks.
#[verifier::external_type_specification]
#[verifier::external_body]
pub struct ExRegex(Regex);

/// `grep_regex`'s `RegexMatcher`, which `grep_searcher` looks for in files.
#[verifier::external_type_specification]
#[verifier::external_body]
pub struct ExRegexMatcher(RegexMatcher);

/// Why `grep_regex` refused a pattern.
#[verifier::external_type_specification]
#[verifier::external_body]
pub struct ExGrepError(grep_regex::Error);

/// What `regex_cursor` builds from a pattern, read with or without regard to case: a regex, or
/// the message that says why there is none.
pub uninterp spec fn built_regex(pattern: Seq<char>, case_insensitive: bool) -> Result<
    Regex,
    Seq<char>,
>;

/// `Builder::build` of `regex_cursor`, with the syntax option `case_insensitive`: the regex of
/// a pattern, or its error as text. It depends on the pattern and the option alone.
#[verifier::external_body]
pub(crate) fn build_regex(pattern: &str, case_insensitive: bool) -> (r: Result<Regex, String>)
    ensures
        match r {
            Ok(regex) => built_regex(pattern@, case_insensitive) == Ok::<Regex, Seq<char>>(regex),
            Err(message) => built_regex(pattern@, case_insensitive) == Err::<Regex, Seq<char>>(
                message@,
            ),
        },
{
    Builder::new()
        .syntax(Config::new().case_insensitive(case_insensitive))
        .build(pattern)
        .map_err(|err| err.to_string())
}

/// Whether a regex matches within the bytes from `start` up to `end` of a text.
pub uninterp spec fn regex_matches(regex: Regex, text: Seq<char>, start: int, end: int) -> bool;

/// `Regex::is_match` of `regex_cursor`, on the rope's bytes from `start` up to `end`. The rest of
/// the rope is there for look-around. It depends on the regex, the rope's text and the range;
/// setting a range that is reversed or out of bounds panics.
#[verifier::external_body]
pub(crate) fn is_match(regex: &Regex, rope: &Rope, start: usize, end: usize) -> (r: bool)
    requires
        start <= end <= byte_len(rope_text(*rope)),
    ensures
        r == regex_matches(*regex, rope_text(*rope), start as int, end as int),
{
    regex.is_match(Input::new(RopeyCursor::at(rope.slice(..), start)).range(start..end))
}

/// What `grep_regex` builds from a pattern, with smart case or without, read as a fixed string or
/// as a regex.
pub uninterp spec fn built_matcher(
    pattern: Seq<char>,
    case_smart: bool,
    fixed_strings: bool,
) -> Result<RegexMatcher, grep_regex::Error>;

/// `RegexMatcherBuilder::build` of `grep_regex`, with the options `case_smart` and
/// `fixed_strings` and otherwise the defaults: the matcher of a pattern, or why there is none. It
/// depends on the pattern and the two options alone.
#[verifier::external_body]
pub(crate) fn build_matcher(pattern: &str, case_smart: bool, fixed_strings: bool) -> (r: Result<
    RegexMatcher,
    grep_regex::Error,
>)
    ensures
        r == built_matcher(pattern@, case_smart, fixed_strings),
{
    RegexMatcherBuilder::new().case_smart(case_smart).fixed_strings(fixed_strings).build(pattern)
}

} // verus!
