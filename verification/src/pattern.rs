//! Regular expressions, as the `regex` crate reads and matches them.
//!
//! Nothing here says what a pattern matches: each result of the crate is
//! given a name, and the contracts built on it say which call decides.

use crate::text::is_digit;
use regex::Error;
use regex::Regex;
use regex::RegexBuilder;
use vstd::prelude::*;

verus! {

#[verifier::external_type_specification]
#[verifier::external_body]
pub struct ExRegexError(Error);

/// Whether the `regex` crate compiles `pattern`, read with or without regard
/// to case.
pub uninterp spec fn regex_valid(pattern: Seq<char>, case_insensitive: bool) -> bool;

/// Whether `pattern`, once compiled so, matches anywhere in `text`.
pub uninterp spec fn regex_matches(
    pattern: Seq<char>,
    case_insensitive: bool,
    text: Seq<char>,
) -> bool;

/// What the capture group numbered `group` holds in the leftmost match of
/// `pattern` in `text`: `None` where there is no match, or the group took no
/// part in it.
pub uninterp spec fn regex_group(pattern: Seq<char>, text: Seq<char>, group: int) -> Option<
    Seq<char>,
>;

/// `a` and `b` are the same character, or the same ASCII letter in its two
/// cases.
pub open spec fn same_ascii_letter(a: char, b: char) -> bool {
    ||| a == b
    ||| 'A' <= a <= 'Z' && b as int == a as int + 32
    ||| 'A' <= b <= 'Z' && a as int == b as int + 32
}

/// `a` and `b` are the same text but for the case of ASCII letters.
pub open spec fn same_ignoring_ascii_case(a: Seq<char>, b: Seq<char>) -> bool {
    &&& a.len() == b.len()
    &&& forall|i: int| 0 <= i < a.len() ==> same_ascii_letter(#[trigger] a[i], b[i])
}

/// `word` is made of ASCII letters and digits only: as a pattern, every
/// character of it stands for itself.
pub open spec fn is_plain_word(word: Seq<char>) -> bool {
    forall|i: int|
        0 <= i < word.len() ==> {
            let c = #[trigger] word[i];
            'a' <= c <= 'z' || 'A' <= c <= 'Z' || is_digit(c)
        }
}

/// `word` occurs in `hay` at position `at`, but for the case of ASCII
/// letters.
pub open spec fn occurs_ignoring_case_at(hay: Seq<char>, word: Seq<char>, at: int) -> bool {
    &&& 0 <= at
    &&& at + word.len() <= hay.len()
    &&& same_ignoring_ascii_case(hay.subrange(at, at + word.len()), word)
}

/// `word` occurs somewhere in `hay`, but for the case of ASCII letters.
pub open spec fn occurs_ignoring_case(hay: Seq<char>, word: Seq<char>) -> bool {
    exists|at: int| occurs_ignoring_case_at(hay, word, at)
}

/// `RegexBuilder::new`, `case_insensitive` and `build` of the `regex` crate,
/// then `Regex::is_match`. An error means that the pattern did not compile.
/// Both outcomes depend on the arguments alone; the contract gives them
/// their names. Of what matches it states one thing, which the crate's
/// syntax documents: a letter or digit in a pattern stands for itself,
/// characters in a row match in a row, and without regard to case a letter
/// matches in both cases. So a word of letters and digits, once compiled
/// without regard to case, matches every text that holds it in any case.
#[verifier::external_body]
pub(crate) fn is_match(pattern: &str, case_insensitive: bool, text: &str) -> (r: Result<
    bool,
    Error,
>)
    ensures
        r is Ok <==> regex_valid(pattern@, case_insensitive),
        r matches Ok(found) ==> found == regex_matches(pattern@, case_insensitive, text@),
        r matches Ok(found) ==> (case_insensitive && is_plain_word(pattern@)
            && occurs_ignoring_case(text@, pattern@) ==> found),
{
    let re = RegexBuilder::new(pattern).case_insensitive(case_insensitive).build()?;
    Ok(re.is_match(text))
}

/// `Regex::new` of the `regex` crate, then `Regex::captures`, `Captures::get`
/// and `Match::as_str`. An error means that the pattern did not compile.
/// Both outcomes depend on the arguments alone; the contract only gives them
/// their names.
#[verifier::external_body]
pub(crate) fn first_group(pattern: &str, text: &str, group: usize) -> (r: Result<
    Option<String>,
    Error,
>)
    ensures
        r is Ok <==> regex_valid(pattern@, false),
        r matches Ok(Some(held)) ==> regex_group(pattern@, text@, group as int) == Some(held@),
        r matches Ok(None) ==> regex_group(pattern@, text@, group as int) is None,
{
    let re = Regex::new(pattern)?;
    match re.captures(text) {
        Some(found) => match found.get(group) {
            Some(held) => Ok(Some(held.as_str().to_owned())),
            None => Ok(None),
        },
        None => Ok(None),
    }
}

} // verus!
