//! Splitters on Unicode word and sentence boundaries and on line endings.
use vstd::prelude::*;
use unicode_segmentation::UnicodeSegmentation;
use crate::text::{process_str, trim, trim_str};

verus! {

/// The pieces of `s` between its Unicode (UAX #29) word boundaries.
pub uninterp spec fn word_bounds_of(s: Seq<char>) -> Seq<Seq<char>>;

/// The Unicode (UAX #29) sentences of `s`.
pub uninterp spec fn sentences_of(s: Seq<char>) -> Seq<Seq<char>>;

/// The lines of `s`, without their line endings.
pub uninterp spec fn lines_of(s: Seq<char>) -> Seq<Seq<char>>;

/// The characters of each piece.
pub open spec fn pieces_view(v: Seq<&str>) -> Seq<Seq<char>> {
    v.map_values(|p: &str| p@)
}

/// Relies on `UnicodeSegmentation::split_word_bounds`: the text cut at each
/// word boundary; the result depends on the text alone.
#[verifier::external_body]
fn word_bounds<'a>(s: &'a str) -> (r: Vec<&'a str>)
    ensures
        pieces_view(r@) == word_bounds_of(s@),
{
    s.split_word_bounds().collect()
}

/// Relies on `UnicodeSegmentation::unicode_sentences`: the sentences of the
/// text; the result depends on the text alone.
#[verifier::external_body]
fn sentences<'a>(s: &'a str) -> (r: Vec<&'a str>)
    ensures
        pieces_view(r@) == sentences_of(s@),
{
    s.unicode_sentences().collect()
}

/// Relies on `str::lines`: the text cut at each `\n` or `\r\n`, the line
/// endings left out; the result depends on the text alone.
#[verifier::external_body]
fn lines<'a>(s: &'a str) -> (r: Vec<&'a str>)
    ensures
        pieces_view(r@) == lines_of(s@),
{
    s.lines().collect()
}

/// What is left of `pieces` once each is run through `process_str`: empty
/// pieces are dropped, the others trimmed.
pub open spec fn kept(pieces: Seq<Seq<char>>) -> Seq<Seq<char>>
    decreases pieces.len(),
{
    if pieces.len() == 0 {
        Seq::empty()
    } else {
        let rest = kept(pieces.drop_last());
        if pieces.last().len() == 0 {
            rest
        } else {
            rest.push(trim(pieces.last()))
        }
    }
}

/// Runs each piece through `process_str`, keeping those that it returns.
pub fn keep_pieces<'a>(pieces: &Vec<&'a str>) -> (r: Vec<&'a str>)
    ensures
        pieces_view(r@) == kept(pieces_view(pieces@)),
{
    let mut r: Vec<&'a str> = Vec::new();
    let mut i: usize = 0;
    while i < pieces.len()
        invariant
            i <= pieces.len(),
            pieces_view(r@) == kept(pieces_view(pieces@.take(i as int))),
        decreases pieces.len() - i,
    {
        let ghost before = r@;
        assert(pieces_view(pieces@.take(i + 1)).drop_last() == pieces_view(pieces@.take(i as int)));
        assert(pieces_view(pieces@.take(i + 1)).last() == pieces@[i as int]@);
        match process_str(pieces[i]) {
            Some(t) => {
                r.push(t);
                assert(pieces_view(r@) == pieces_view(before).push(t@));
            },
            None => {},
        }
        i += 1;
    }
    assert(pieces@.take(pieces.len() as int) == pieces@);
    r
}

/// A tokenizer whose tokens are slices of its text.
pub trait Tokenizer<'a>: Sized {
    /// The text that the tokenizer reads.
    spec fn text_view(&self) -> Seq<char>;

    /// The tokens that `tokenize` returns.
    spec fn tokens_view(&self) -> Seq<Seq<char>>;

    /// A tokenizer over `text` with its surrounding whitespace removed.
    fn new(text: &'a str) -> (r: Self)
        ensures
            r.text_view() == trim(text@),
    ;

    /// The tokens of the text.
    fn tokenize(&'a self) -> (r: Vec<&'a str>)
        ensures
            pieces_view(r@) == self.tokens_view(),
    ;
}

/// A tokenizer that splits its text into words, sentences or lines.
pub trait FullTokenizer<'a>: Sized {
    /// The text that the tokenizer reads.
    spec fn text_view(&self) -> Seq<char>;

    /// A tokenizer over `text` with its surrounding whitespace removed.
    fn new(text: &'a str) -> (r: Self)
        ensures
            r.text_view() == trim(text@),
    ;

    /// The pieces between word boundaries, each trimmed, empty ones dropped.
    fn word_split(&'a self) -> (r: Vec<&'a str>)
        ensures
            pieces_view(r@) == kept(word_bounds_of(self.text_view())),
    ;

    /// The sentences, each trimmed, empty ones dropped.
    fn sentence_split(&'a self) -> (r: Vec<&'a str>)
        ensures
            pieces_view(r@) == kept(sentences_of(self.text_view())),
    ;

    /// The lines, each trimmed, empty ones dropped.
    fn line_split(&'a self) -> (r: Vec<&'a str>)
        ensures
            pieces_view(r@) == kept(lines_of(self.text_view())),
    ;
}

/// Splits its text into words, sentences and lines.
pub struct SimpleTokenizer<'a> {
    text: &'a str,
}

impl<'a> FullTokenizer<'a> for SimpleTokenizer<'a> {
    closed spec fn text_view(&self) -> Seq<char> {
        self.text@
    }

    fn new(text: &'a str) -> (r: Self) {
        SimpleTokenizer { text: trim_str(text) }
    }

    fn word_split(&'a self) -> (r: Vec<&'a str>) {
        keep_pieces(&word_bounds(self.text))
    }

    fn sentence_split(&'a self) -> (r: Vec<&'a str>) {
        keep_pieces(&sentences(self.text))
    }

    fn line_split(&'a self) -> (r: Vec<&'a str>) {
        keep_pieces(&lines(self.text))
    }
}

/// Splits its text into the pieces between word boundaries.
pub struct SimpleWordTokenizer<'a> {
    text: &'a str,
}

impl<'a> Tokenizer<'a> for SimpleWordTokenizer<'a> {
    closed spec fn text_view(&self) -> Seq<char> {
        self.text@
    }

    open spec fn tokens_view(&self) -> Seq<Seq<char>> {
        kept(word_bounds_of(self.text_view()))
    }

    fn new(text: &'a str) -> (r: Self) {
        SimpleWordTokenizer { text: trim_str(text) }
    }

    fn tokenize(&'a self) -> (r: Vec<&'a str>) {
        keep_pieces(&word_bounds(self.text))
    }
}

/// Splits its text into sentences.
pub struct SimpleSentenceTokenizer<'a> {
    text: &'a str,
}

impl<'a> Tokenizer<'a> for SimpleSentenceTokenizer<'a> {
    closed spec fn text_view(&self) -> Seq<char> {
        self.text@
    }

    open spec fn tokens_view(&self) -> Seq<Seq<char>> {
        kept(sentences_of(self.text_view()))
    }

    fn new(text: &'a str) -> (r: Self) {
        SimpleSentenceTokenizer { text: trim_str(text) }
    }

    fn tokenize(&'a self) -> (r: Vec<&'a str>) {
        keep_pieces(&sentences(self.text))
    }
}

/// Splits its text into lines.
pub struct SimpleLineTokenizer<'a> {
    text: &'a str,
}

impl<'a> Tokenizer<'a> for SimpleLineTokenizer<'a> {
    closed spec fn text_view(&self) -> Seq<char> {
        self.text@
    }

    open spec fn tokens_view(&self) -> Seq<Seq<char>> {
        kept(lines_of(self.text_view()))
    }

    fn new(text: &'a str) -> (r: Self) {
        SimpleLineTokenizer { text: trim_str(text) }
    }

    fn tokenize(&'a self) -> (r: Vec<&'a str>) {
        keep_pieces(&lines(self.text))
    }
}

} // verus!

verus! {

/// Every piece that `process_str` returns is already trimmed.
pub proof fn lemma_kept_trimmed(pieces: Seq<Seq<char>>)
    ensures
        forall|k: int| 0 <= k < kept(pieces).len() ==> trim(#[trigger] kept(pieces)[k]) == kept(
            pieces,
        )[k],
    decreases pieces.len(),
{
    if pieces.len() > 0 {
        let rest = kept(pieces.drop_last());
        lemma_kept_trimmed(pieces.drop_last());
        crate::text::lemma_trim_idempotent(pieces.last());
        assert forall|k: int| 0 <= k < kept(pieces).len() implies trim(
            #[trigger] kept(pieces)[k],
        ) == kept(pieces)[k] by {
            if k < rest.len() {
                assert(kept(pieces)[k] == rest[k]);
            }
        }
    }
}

} // verus!
