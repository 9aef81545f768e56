//! Character classes that the rewrite rules read, as the regular-expression
//! crates define them under Unicode rules.
use vstd::prelude::*;

verus! {

/// Whether `c` is a word character (`\w`): Alphabetic, Join_Control, or in
/// one of the general categories Decimal_Number, Mark, Connector_Punctuation.
pub uninterp spec fn is_word_char(c: char) -> bool;

/// Whether `c` is a decimal digit (`\d`): general category Decimal_Number.
pub uninterp spec fn is_decimal_digit(c: char) -> bool;

/// Relies on `regex_syntax::is_word_character`, which answers from the
/// Unicode tables of `\w`; the default features that it needs are enabled.
#[verifier::external_body]
pub(crate) fn word_char(c: char) -> (r: bool)
    ensures
        r == is_word_char(c),
{
    regex_syntax::is_word_character(c)
}

/// Relies on `regex::Regex` with the Unicode class `\d`: the one-character
/// text `c` matches it exactly when `c` is a decimal digit. The pattern is
/// a fixed valid one, so building it does not fail.
#[verifier::external_body]
pub(crate) fn decimal_digit(c: char) -> (r: bool)
    ensures
        r == is_decimal_digit(c),
{
    regex::Regex::new(r"\A\d\z").unwrap().is_match(c.encode_utf8(&mut [0u8; 4]))
}

} // verus!
