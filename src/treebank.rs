//! Penn-Treebank-style word tokenization: an ordered pipeline of rewrite
//! rules over a working text, then a split on whitespace.
use vstd::prelude::*;
use crate::engine::rewrite_text_all;
use crate::rules::{rewrite_all, Rule};
use crate::text::{
    all_tokens, all_whitespace, chars_of, join_spaces, lemma_split_whitespace_resplit,
    lemma_trim_surrounded, split_tokens, split_whitespace, trim, trim_str,
};

verus! {

/// Quotes, punctuation and brackets, padded first.
pub open spec fn initial_rules() -> Seq<Rule> {
    seq![
        Rule::StartQuote,
        Rule::PadBackticks,
        Rule::OpenQuote,
        Rule::ColonComma,
        Rule::ColonCommaAtEnd,
        Rule::Ellipsis,
        Rule::Symbol,
        Rule::FinalPeriod,
        Rule::QuestionExclaim,
        Rule::ApostropheSpace,
        Rule::PadBracket,
    ]
}

/// Brackets renamed, then double dashes padded.
pub open spec fn mid_rules() -> Seq<Rule> {
    seq![
        Rule::LeftRound,
        Rule::RightRound,
        Rule::LeftSquare,
        Rule::RightSquare,
        Rule::LeftCurly,
        Rule::RightCurly,
        Rule::DoubleDash,
    ]
}

/// Closing quotes and contraction suffixes, on the padded text.
pub open spec fn final_rules() -> Seq<Rule> {
    seq![Rule::DoubledQuote, Rule::CloseQuote, Rule::ShortSuffix, Rule::LongSuffix]
}

/// Two-part contractions, matched ignoring case.
pub open spec fn contraction_rules() -> Seq<Rule> {
    seq![
        Rule::CanNot,
        Rule::DYe,
        Rule::GimMe,
        Rule::GonNa,
        Rule::GotTa,
        Rule::LemMe,
        Rule::MoreN,
        Rule::WanNa,
        Rule::TIs,
        Rule::TWas,
    ]
}

/// The working text after every stage, for an already trimmed text `t`: the
/// initial and middle rules, one space added on each side, then the final
/// and contraction rules.
pub open spec fn rewritten(t: Seq<char>) -> Seq<char> {
    let middle = rewrite_all(mid_rules(), rewrite_all(initial_rules(), t));
    rewrite_all(contraction_rules(), rewrite_all(final_rules(), seq![' '] + middle + seq![' ']))
}

/// The Treebank tokens of `text`.
pub open spec fn treebank_tokens(text: Seq<char>) -> Seq<Seq<char>> {
    split_whitespace(rewritten(trim(text)))
}

fn initial_group() -> (r: Vec<Rule>)
    ensures
        r@ == initial_rules(),
{
    vec![
        Rule::StartQuote,
        Rule::PadBackticks,
        Rule::OpenQuote,
        Rule::ColonComma,
        Rule::ColonCommaAtEnd,
        Rule::Ellipsis,
        Rule::Symbol,
        Rule::FinalPeriod,
        Rule::QuestionExclaim,
        Rule::ApostropheSpace,
        Rule::PadBracket,
    ]
}

fn mid_group() -> (r: Vec<Rule>)
    ensures
        r@ == mid_rules(),
{
    vec![
        Rule::LeftRound,
        Rule::RightRound,
        Rule::LeftSquare,
        Rule::RightSquare,
        Rule::LeftCurly,
        Rule::RightCurly,
        Rule::DoubleDash,
    ]
}

fn final_group() -> (r: Vec<Rule>)
    ensures
        r@ == final_rules(),
{
    vec![Rule::DoubledQuote, Rule::CloseQuote, Rule::ShortSuffix, Rule::LongSuffix]
}

fn contraction_group() -> (r: Vec<Rule>)
    ensures
        r@ == contraction_rules(),
{
    vec![
        Rule::CanNot,
        Rule::DYe,
        Rule::GimMe,
        Rule::GonNa,
        Rule::GotTa,
        Rule::LemMe,
        Rule::MoreN,
        Rule::WanNa,
        Rule::TIs,
        Rule::TWas,
    ]
}

/// Runs every stage of the pipeline on the trimmed text `t`.
fn rewrite_pipeline(t: Vec<char>) -> (r: Vec<char>)
    ensures
        r@ == rewritten(t@),
{
    let initial = rewrite_text_all(&initial_group(), t);
    let middle = rewrite_text_all(&mid_group(), initial);
    let mut padded: Vec<char> = vec![' '];
    let mut body = middle;
    let ghost mid = body@;
    padded.append(&mut body);
    padded.push(' ');
    assert(padded@ == seq![' '] + mid + seq![' ']);
    let closed = rewrite_text_all(&final_group(), padded);
    rewrite_text_all(&contraction_group(), closed)
}

/// A tokenizer whose tokens are owned strings.
pub trait StringTokenizer<'a>: Sized {
    /// The text that the tokenizer reads.
    spec fn text_view(&self) -> Seq<char>;

    /// The tokens that `tokenize` returns.
    spec fn tokens_view(&self) -> Seq<Seq<char>>;

    /// A tokenizer over `text` with its surrounding whitespace removed.
    fn new(text: &'a str) -> (r: Self)
        ensures
            r.text_view() == trim(text@),
    ;

    /// The tokens of the text.
    fn tokenize(&'a self) -> (r: Vec<String>)
        ensures
            r.deep_view() == self.tokens_view(),
    ;
}

/// Splits text into words and punctuation the way the Penn Treebank does.
pub struct TreebankWordTokenizer<'a> {
    text: &'a str,
}

impl<'a> StringTokenizer<'a> for TreebankWordTokenizer<'a> {
    closed spec fn text_view(&self) -> Seq<char> {
        self.text@
    }

    open spec fn tokens_view(&self) -> Seq<Seq<char>> {
        treebank_tokens(self.text_view())
    }

    fn new(text: &'a str) -> (r: Self) {
        TreebankWordTokenizer { text: trim_str(text) }
    }

    fn tokenize(&'a self) -> (r: Vec<String>) {
        let t = chars_of(trim_str(self.text));
        let out = rewrite_pipeline(t);
        split_tokens(&out)
    }
}

/// Every token is non-empty and holds no whitespace, and joining the tokens
/// with single spaces and splitting that on whitespace gives the same tokens.
pub proof fn lemma_tokens_resplit(text: Seq<char>)
    ensures
        all_tokens(treebank_tokens(text)),
        split_whitespace(join_spaces(treebank_tokens(text))) == treebank_tokens(text),
{
    lemma_split_whitespace_resplit(rewritten(trim(text)));
}

/// Whitespace before or after the text does not change its tokens.
pub proof fn lemma_tokens_ignore_surrounding_whitespace(w1: Seq<char>, text: Seq<char>, w2: Seq<char>)
    requires
        all_whitespace(w1),
        all_whitespace(w2),
    ensures
        treebank_tokens(w1 + text + w2) == treebank_tokens(text),
{
    lemma_trim_surrounded(w1, text, w2);
}

/// Tokenizing is deterministic: two tokenizers over the same text give the
/// same tokens, in the same order.
pub proof fn lemma_tokens_deterministic(a: TreebankWordTokenizer, b: TreebankWordTokenizer)
    requires
        a.text_view() == b.text_view(),
    ensures
        a.tokens_view() == b.tokens_view(),
{
}

} // verus!
