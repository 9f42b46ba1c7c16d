//! Checks on what a user types before it reaches the store.
use vstd::prelude::*;
use crate::animal_data_csv::class_from_word;
use crate::animal_structs::class_of_tag;
use crate::text::str_eq;

verus! {

/// The pattern of a lowercase word, or several joined by single hyphens.
pub const LOWERCASE_HYPHENATED: &'static str = "^[a-z]+(?:-[a-z]+)*$";

pub open spec fn is_lower_letter(c: char) -> bool {
    'a' <= c && c <= 'z'
}

/// Lowercase letters in one or more runs separated by single hyphens, with
/// nothing else before, between or after.
pub open spec fn lowercase_hyphenated(s: Seq<char>) -> bool {
    &&& s.len() > 0
    &&& is_lower_letter(s[0])
    &&& is_lower_letter(s.last())
    &&& forall|i: int| 0 <= i < s.len() ==> is_lower_letter(#[trigger] s[i]) || s[i] == '-'
    &&& forall|i: int| 0 <= i < s.len() - 1 ==> !(#[trigger] s[i] == '-' && s[i + 1] == '-')
}

/// Relies on regex::Regex::new and Regex::is_match: with the pattern
/// `^[a-z]+(?:-[a-z]+)*$` (anchored at both ends of the text), a match is
/// exactly a lowercase hyphenated word.
#[verifier::external_body]
fn regex_is_match(pattern: &str, input: &str) -> (r: bool)
    requires
        pattern@ == LOWERCASE_HYPHENATED@,
    ensures
        r == lowercase_hyphenated(input@),
{
    match regex::Regex::new(pattern) {
        Ok(re) => re.is_match(input),
        Err(_) => false,
    }
}

fn valid_string_lowercased_with_hyphens(input: &String) -> (r: bool)
    ensures
        r == lowercase_hyphenated(input@),
{
    regex_is_match(LOWERCASE_HYPHENATED, input.as_str())
}

/// Whether the input names a class.
pub fn valid_class(input: &String) -> (r: bool)
    ensures
        r == class_of_tag(input@) is Some,
{
    class_from_word(input.as_str()).is_some()
}

/// Whether the input is a valid species name.
pub fn valid_animal_name(input: &String) -> (r: bool)
    ensures
        r == lowercase_hyphenated(input@),
{
    valid_string_lowercased_with_hyphens(input)
}

/// Whether the input is a valid hyphen-separated list of predators.
pub fn valid_predators(input: &String) -> (r: bool)
    ensures
        r == lowercase_hyphenated(input@),
{
    valid_string_lowercased_with_hyphens(input)
}

/// Whether the input is a valid hyphen-separated list of preys.
pub fn valid_preys(input: &String) -> (r: bool)
    ensures
        r == lowercase_hyphenated(input@),
{
    valid_string_lowercased_with_hyphens(input)
}

/// Accepts any input.
pub fn any_input_is_valid(_input: &String) -> (r: bool)
    ensures
        r,
{
    true
}

/// Whether the input chooses a sex: `m` or `f`.
pub fn valid_sex(input: &String) -> (r: bool)
    ensures
        r == (input@ == "m"@ || input@ == "f"@),
{
    str_eq(input.as_str(), "m") || str_eq(input.as_str(), "f")
}

} // verus!
