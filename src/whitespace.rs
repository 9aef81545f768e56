//! Splitting on runs of whitespace, on blank lines, and into runs of word characters and of
//! punctuation.
use vstd::prelude::*;
use crate::classes::is_word_char;
use crate::simple::{keep_pieces, kept, pieces_view, Tokenizer};
use crate::text::{
    all_tokens, is_token, is_whitespace, lemma_split_whitespace_resplit, split_whitespace, trim, trim_end,
    trim_start, trim_str,
};

verus! {

/// Relies on `str::split_whitespace`: the maximal runs of characters that
/// are not Unicode `White_Space`, in order.
#[verifier::external_body]
fn whitespace_pieces<'a>(s: &'a str) -> (r: Vec<&'a str>)
    ensures
        pieces_view(r@) == split_whitespace(s@),
{
    s.split_whitespace().collect()
}

proof fn lemma_kept_tokens(toks: Seq<Seq<char>>)
    requires
        all_tokens(toks),
    ensures
        kept(toks) == toks,
    decreases toks.len(),
{
    if toks.len() > 0 {
        let last = toks.last();
        assert(is_token(last));
        assert(trim_start(last) == last);
        assert(trim_end(last) == last);
        assert(all_tokens(toks.drop_last()));
        lemma_kept_tokens(toks.drop_last());
        assert(toks.drop_last().push(last) == toks);
    }
}

/// Splits its text on runs of whitespace.
pub struct WhitespaceRegexTokenizer<'a> {
    text: &'a str,
}

impl<'a> Tokenizer<'a> for WhitespaceRegexTokenizer<'a> {
    closed spec fn text_view(&self) -> Seq<char> {
        self.text@
    }

    open spec fn tokens_view(&self) -> Seq<Seq<char>> {
        split_whitespace(self.text_view())
    }

    fn new(text: &'a str) -> (r: Self) {
        WhitespaceRegexTokenizer { text: trim_str(text) }
    }

    fn tokenize(&'a self) -> (r: Vec<&'a str>) {
        let r = keep_pieces(&whitespace_pieces(self.text));
        proof {
            lemma_split_whitespace_resplit(self.text@);
            lemma_kept_tokens(split_whitespace(self.text@));
        }
        r
    }
}

/// The kind of run that `c` belongs to: 1 for a word character, 0 for
/// whitespace, 2 for anything else.
pub open spec fn run_kind(c: char) -> int {
    if is_word_char(c) {
        1
    } else if is_whitespace(c) {
        0
    } else {
        2
    }
}

/// Cutting `s` into runs, with `toks` the runs found so far and `cur` the
/// run of kind `k` being read.
pub open spec fn runs_from(s: Seq<char>, toks: Seq<Seq<char>>, cur: Seq<char>, k: int) -> Seq<
    Seq<char>,
>
    decreases s.len(),
{
    let done = if cur.len() > 0 {
        toks.push(cur)
    } else {
        toks
    };
    if s.len() == 0 {
        done
    } else {
        let c = run_kind(s[0]);
        if c == k && c != 0 {
            runs_from(s.drop_first(), toks, cur.push(s[0]), k)
        } else if c == 0 {
            runs_from(s.drop_first(), done, Seq::empty(), 0)
        } else {
            runs_from(s.drop_first(), done, seq![s[0]], c)
        }
    }
}

/// The maximal runs of word characters and the maximal runs of characters
/// that are neither word characters nor whitespace, in order.
pub open spec fn word_punctuation_runs(s: Seq<char>) -> Seq<Seq<char>> {
    runs_from(s, Seq::empty(), Seq::empty(), 0)
}

/// Relies on `regex::Regex::find_iter` with the pattern `\w+|[^\w\s]+`:
/// leftmost-first matching takes each maximal run of word characters, and
/// each maximal run of characters that are neither word characters nor
/// whitespace. The pattern is a fixed valid one, so building it does not fail.
#[verifier::external_body]
fn word_punctuation_matches<'a>(s: &'a str) -> (r: Vec<&'a str>)
    ensures
        pieces_view(r@) == word_punctuation_runs(s@),
{
    let re = regex::Regex::new(r"\w+|[^\w\s]+").unwrap();
    re.find_iter(s).map(|m| m.as_str()).collect()
}

/// Splits its text into runs of word characters and runs of punctuation.
pub struct WordPunctuationRegexTokenizer<'a> {
    text: &'a str,
}

impl<'a> Tokenizer<'a> for WordPunctuationRegexTokenizer<'a> {
    closed spec fn text_view(&self) -> Seq<char> {
        self.text@
    }

    open spec fn tokens_view(&self) -> Seq<Seq<char>> {
        kept(word_punctuation_runs(self.text_view()))
    }

    fn new(text: &'a str) -> (r: Self) {
        WordPunctuationRegexTokenizer { text: trim_str(text) }
    }

    fn tokenize(&'a self) -> (r: Vec<&'a str>) {
        keep_pieces(&word_punctuation_matches(self.text))
    }
}

/// The end of the run of whitespace that starts at `j`.
pub open spec fn whitespace_end(s: Seq<char>, j: int) -> int
    decreases s.len() - j,
{
    if 0 <= j < s.len() && is_whitespace(s[j]) {
        whitespace_end(s, j + 1)
    } else {
        j
    }
}

/// How many line feeds `s` holds.
pub open spec fn line_feeds(s: Seq<char>) -> int
    decreases s.len(),
{
    if s.len() == 0 {
        0
    } else {
        line_feeds(s.drop_last()) + if s.last() == '\n' {
            1int
        } else {
            0int
        }
    }
}

/// Cutting `s` from position `i` on at blank lines, with `toks` the pieces
/// found so far and `cur` the piece being read.
pub open spec fn blank_split_from(s: Seq<char>, i: int, toks: Seq<Seq<char>>, cur: Seq<char>) -> Seq<
    Seq<char>,
>
    decreases s.len() - i,
{
    if i < 0 || i >= s.len() {
        toks.push(cur)
    } else if i < whitespace_end(s, i) <= s.len() && line_feeds(
        s.subrange(i, whitespace_end(s, i)),
    ) >= 2 {
        blank_split_from(s, whitespace_end(s, i), toks.push(cur), Seq::empty())
    } else {
        blank_split_from(s, i + 1, toks, cur.push(s[i]))
    }
}

/// The pieces of `s` between its blank lines: each maximal run of
/// whitespace that holds at least two line feeds separates two pieces.
pub open spec fn blank_line_pieces(s: Seq<char>) -> Seq<Seq<char>> {
    blank_split_from(s, 0, Seq::empty(), Seq::empty())
}

/// Relies on `regex::Regex::split` with the pattern `\s*\n\s*\n\s*`: the
/// leftmost match starts where a run of whitespace with two line feeds
/// starts, and the greedy tail takes the rest of that run. The pattern is a
/// fixed valid one, so building it does not fail.
#[verifier::external_body]
fn blank_line_split<'a>(s: &'a str) -> (r: Vec<&'a str>)
    ensures
        pieces_view(r@) == blank_line_pieces(s@),
{
    let re = regex::Regex::new(r"\s*\n\s*\n\s*").unwrap();
    re.split(s).collect()
}

/// Splits its text into the blocks between blank lines.
pub struct BlanklineRegexTokenizer<'a> {
    text: &'a str,
}

impl<'a> Tokenizer<'a> for BlanklineRegexTokenizer<'a> {
    closed spec fn text_view(&self) -> Seq<char> {
        self.text@
    }

    open spec fn tokens_view(&self) -> Seq<Seq<char>> {
        kept(blank_line_pieces(self.text_view()))
    }

    fn new(text: &'a str) -> (r: Self) {
        BlanklineRegexTokenizer { text: trim_str(text) }
    }

    fn tokenize(&'a self) -> (r: Vec<&'a str>) {
        keep_pieces(&blank_line_split(self.text))
    }
}

} // verus!
