//! Tokenizers driven by a regular expression that the caller supplies: the
//! text is either split at its matches or cut down to its matches.
use vstd::prelude::*;
use regex::{Regex, RegexBuilder};
use crate::simple::{keep_pieces, kept, lemma_kept_trimmed, pieces_view};
use crate::text::{trim, trim_str};

verus! {

#[verifier::external_type_specification]
#[verifier::external_body]
pub struct ExRegex(Regex);

/// Whether `p` compiles as a regular expression with Unicode and multi-line
/// matching on.
pub uninterp spec fn pattern_compiles(p: Seq<char>) -> bool;

/// Relies on `RegexBuilder::build` with `unicode(true)` and
/// `multi_line(true)`: the compiled expression, or `None` where the pattern
/// is refused; which patterns are refused depends on the pattern alone.
#[verifier::external_body]
fn compile(pattern: &str) -> (r: Option<Regex>)
    ensures
        r.is_some() == pattern_compiles(pattern@),
{
    RegexBuilder::new(pattern).unicode(true).multi_line(true).build().ok()
}

/// Relies on `Regex::split`: the pieces of the text between the matches of
/// an expression that is opaque here, so nothing is stated of them.
#[verifier::external_body]
fn regex_split<'a>(re: &Regex, text: &'a str) -> (r: Vec<&'a str>) {
    re.split(text).collect()
}

/// Relies on `Regex::find_iter`: the matches in the text of an expression
/// that is opaque here, so nothing is stated of them.
#[verifier::external_body]
fn regex_matches<'a>(re: &Regex, text: &'a str) -> (r: Vec<&'a str>) {
    re.find_iter(text).map(|m| m.as_str()).collect()
}

/// Whether every element of `v` is already trimmed.
pub open spec fn all_trimmed(v: Seq<&str>) -> bool {
    forall|k: int| 0 <= k < v.len() ==> trim(#[trigger] v[k]@) == v[k]@
}

fn build_regex(pattern: &str) -> (r: Regex)
    requires
        pattern_compiles(pattern@),
{
    compile(pattern).unwrap()
}

fn process_regex_split_tokenizer<'a>(text: &'a str, rgx: &Regex) -> (r: Vec<&'a str>)
    ensures
        all_trimmed(r@),
{
    let pieces = regex_split(rgx, text);
    let r = keep_pieces(&pieces);
    proof {
        lemma_kept_trimmed(pieces_view(pieces@));
        assert forall|k: int| 0 <= k < r@.len() implies trim(#[trigger] r@[k]@) == r@[k]@ by {
            assert(pieces_view(r@)[k] == r@[k]@);
        }
    }
    r
}

fn process_regex_match_tokenizer<'a>(text: &'a str, rgx: &Regex) -> (r: Vec<&'a str>)
    ensures
        all_trimmed(r@),
{
    let pieces = regex_matches(rgx, text);
    let r = keep_pieces(&pieces);
    proof {
        lemma_kept_trimmed(pieces_view(pieces@));
        assert forall|k: int| 0 <= k < r@.len() implies trim(#[trigger] r@[k]@) == r@[k]@ by {
            assert(pieces_view(r@)[k] == r@[k]@);
        }
    }
    r
}

/// The expression of a regular-expression tokenizer, compiled or as a
/// pattern, and whether the text is split at its matches or cut down to them.
pub enum RegexType<'a> {
    SplitRegex(Regex),
    MatchRegex(Regex),
    SplitRegexPattern(&'a str),
    MatchRegexPattern(&'a str),
}

impl<'a> RegexType<'a> {
    /// Whether a pattern, if this holds one, compiles.
    pub open spec fn compiles(&self) -> bool {
        match self {
            RegexType::SplitRegexPattern(p) => pattern_compiles(p@),
            RegexType::MatchRegexPattern(p) => pattern_compiles(p@),
            _ => true,
        }
    }

    /// Whether the text is split at the matches (else cut down to them).
    pub open spec fn splits(&self) -> bool {
        match self {
            RegexType::SplitRegex(_) | RegexType::SplitRegexPattern(_) => true,
            _ => false,
        }
    }
}

/// A tokenizer driven by a regular expression.
pub trait RegexTokenizer<'a>: Sized {
    /// The text that the tokenizer reads.
    spec fn text_view(&self) -> Seq<char>;

    /// Whether the text is split at the matches (else cut down to them).
    spec fn splits(&self) -> bool;

    /// A tokenizer over `text` with its surrounding whitespace removed.
    fn new(text: &'a str, regex_type: RegexType<'a>) -> (r: Self)
        requires
            regex_type.compiles(),
        ensures
            r.text_view() == trim(text@),
            r.splits() == regex_type.splits(),
    ;

    /// The pieces between the matches, or the matches, each trimmed, empty
    /// ones dropped.
    fn tokenize(&'a self) -> (r: Vec<&'a str>)
        ensures
            all_trimmed(r@),
    ;
}

/// A tokenizer over an expression that the caller supplies.
pub struct CustomRegexTokenizer<'a> {
    regex: Regex,
    split: bool,
    text: &'a str,
}

impl<'a> CustomRegexTokenizer<'a> {
    /// A tokenizer over `text`, or `None` where `regex_type` holds a pattern
    /// that does not compile.
    pub fn try_new(text: &'a str, regex_type: RegexType<'a>) -> (r: Option<Self>)
        ensures
            r.is_some() == regex_type.compiles(),
            r.is_some() ==> r.unwrap().text_view() == trim(text@) && r.unwrap().splits()
                == regex_type.splits(),
    {
        let ok = match &regex_type {
            RegexType::SplitRegexPattern(p) => compile(p).is_some(),
            RegexType::MatchRegexPattern(p) => compile(p).is_some(),
            _ => true,
        };
        if ok {
            Some(<CustomRegexTokenizer<'a> as RegexTokenizer<'a>>::new(text, regex_type))
        } else {
            None
        }
    }
}

impl<'a> RegexTokenizer<'a> for CustomRegexTokenizer<'a> {
    closed spec fn text_view(&self) -> Seq<char> {
        self.text@
    }

    closed spec fn splits(&self) -> bool {
        self.split
    }

    fn new(text: &'a str, regex_type: RegexType<'a>) -> (r: Self) {
        let trimmed = trim_str(text);
        match regex_type {
            RegexType::SplitRegex(regex) => CustomRegexTokenizer { regex, split: true, text: trimmed },
            RegexType::MatchRegex(regex) => CustomRegexTokenizer { regex, split: false, text: trimmed },
            RegexType::SplitRegexPattern(pattern) => CustomRegexTokenizer {
                regex: build_regex(pattern),
                split: true,
                text: trimmed,
            },
            RegexType::MatchRegexPattern(pattern) => CustomRegexTokenizer {
                regex: build_regex(pattern),
                split: false,
                text: trimmed,
            },
        }
    }

    fn tokenize(&'a self) -> (r: Vec<&'a str>) {
        if self.split {
            return process_regex_split_tokenizer(self.text, &self.regex);
        }
        process_regex_match_tokenizer(self.text, &self.regex)
    }
}

} // verus!
