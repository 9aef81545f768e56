//! The rewrite rules of the Treebank tokenizer, and the engine that applies
//! one rule to a whole text: scanning left to right, at each position the
//! rule either matches, and its replacement stands for the matched
//! characters, or the character is kept.
use vstd::prelude::*;
use crate::classes::{is_decimal_digit, is_word_char};
use crate::text::{all_whitespace, is_whitespace};

verus! {

/// One rewrite rule.
#[derive(Clone, Copy, PartialEq, Eq, Structural, Debug)]
pub enum Rule {
    /// A double quote that opens the text becomes two backticks.
    StartQuote,
    /// Two backticks are padded with spaces.
    PadBackticks,
    /// A double quote, or two single quotes, after a space or an opening
    /// bracket becomes padded backticks.
    OpenQuote,
    /// A colon or comma before a character that is not a digit is padded.
    ColonComma,
    /// A colon or comma that ends the text is padded.
    ColonCommaAtEnd,
    /// Three dots are padded as one unit.
    Ellipsis,
    /// Each of `; @ # $ % &` is padded.
    Symbol,
    /// A period after a character that is not a period, followed only by
    /// closing brackets or quotes and then whitespace up to the end, is split off.
    FinalPeriod,
    /// Each of `? !` is padded.
    QuestionExclaim,
    /// An apostrophe between a character that is not an apostrophe and a
    /// space is padded.
    ApostropheSpace,
    /// Each bracket character of `[](){}<>` is padded.
    PadBracket,
    /// `(` becomes `-LRB-`.
    LeftRound,
    /// `)` becomes `-RRB-`.
    RightRound,
    /// `[` becomes `-LSB-`.
    LeftSquare,
    /// `]` becomes `-RSB-`.
    RightSquare,
    /// `{` becomes `-LCB-`.
    LeftCurly,
    /// `}` becomes `-RCB-`.
    RightCurly,
    /// `--` is padded.
    DoubleDash,
    /// Two single quotes become a padded closing quote `''`.
    DoubledQuote,
    /// A double quote becomes a padded closing quote `''`.
    CloseQuote,
    /// `'s 'm 'd` (either case) or a bare `'`, after a character that is
    /// neither an apostrophe nor a space and before a space, is split off.
    ShortSuffix,
    /// `'ll 're 've n't` (all lower or all upper case), after a character that
    /// is neither an apostrophe nor a space and before a space, is split off.
    LongSuffix,
    /// `cannot` splits into `can not`.
    CanNot,
    /// `d'ye` splits into `d 'ye`.
    DYe,
    /// `gimme` splits into `gim me`.
    GimMe,
    /// `gonna` splits into `gon na`.
    GonNa,
    /// `gotta` splits into `got ta`.
    GotTa,
    /// `lemme` splits into `lem me`.
    LemMe,
    /// `more'n` splits into `more 'n`.
    MoreN,
    /// `wanna` before whitespace splits into `wan na`.
    WanNa,
    /// `'tis` after a space splits into `'t is`.
    TIs,
    /// `'twas` after a space splits into `'t was`.
    TWas,
}

/// Whether position `i` of `s` holds `c`.
pub open spec fn at(s: Seq<char>, i: int, c: char) -> bool {
    0 <= i < s.len() && s[i] == c
}

/// The text `c` with one space on each side.
pub open spec fn padded(c: char) -> Seq<char> {
    seq![' ', c, ' ']
}

pub open spec fn is_colon_comma(c: char) -> bool {
    c == ':' || c == ','
}

pub open spec fn is_symbol(c: char) -> bool {
    c == ';' || c == '@' || c == '#' || c == '$' || c == '%' || c == '&'
}

pub open spec fn is_bracket(c: char) -> bool {
    c == '[' || c == ']' || c == '(' || c == ')' || c == '{' || c == '}' || c == '<' || c == '>'
}

pub open spec fn is_quote_opener(c: char) -> bool {
    c == ' ' || c == '(' || c == '[' || c == '{' || c == '<'
}

/// A character that may follow a sentence-final period: a closing bracket or a quote.
pub open spec fn is_period_closer(c: char) -> bool {
    c == ']' || c == ')' || c == '}' || c == '>' || c == '"' || c == '\''
}

pub open spec fn is_short_suffix_letter(c: char) -> bool {
    c == 's' || c == 'S' || c == 'm' || c == 'M' || c == 'd' || c == 'D'
}

/// `'ll 'LL 're 'RE 've 'VE n't N'T`.
pub open spec fn is_long_suffix(a: char, b: char, c: char) -> bool {
    (a == '\'' && ((b == 'l' && c == 'l') || (b == 'L' && c == 'L') || (b == 'r' && c == 'e')
        || (b == 'R' && c == 'E') || (b == 'v' && c == 'e') || (b == 'V' && c == 'E')))
        || (a == 'n' && b == '\'' && c == 't') || (a == 'N' && b == '\'' && c == 'T')
}

/// The end of the run of period closers that starts at `j`.
pub open spec fn closers_end(s: Seq<char>, j: int) -> int
    decreases s.len() - j,
{
    if 0 <= j < s.len() && is_period_closer(s[j]) {
        closers_end(s, j + 1)
    } else {
        j
    }
}

/// Whether `c` matches the lower-case pattern character `l` ignoring case,
/// by simple case folding.
pub open spec fn same_letter(c: char, l: char) -> bool {
    c == l || ('a' <= l && l <= 'z' && c as u32 == l as u32 - 32) || (l == 's' && c == '\u{17f}')
}

/// Whether the text of `s` from `start` on begins with `w`, ignoring case.
pub open spec fn matches_ignoring_case(s: Seq<char>, start: int, w: Seq<char>) -> bool {
    0 <= start && start + w.len() <= s.len() && forall|k: int|
        0 <= k < w.len() ==> same_letter(#[trigger] s[start + k], w[k])
}

/// Whether position `j` of `s` holds a word character.
pub open spec fn word_at(s: Seq<char>, j: int) -> bool {
    0 <= j < s.len() && is_word_char(s[j])
}

/// Whether a word boundary stands between positions `j - 1` and `j`.
pub open spec fn word_boundary(s: Seq<char>, j: int) -> bool {
    word_at(s, j - 1) != word_at(s, j)
}

/// Whether `r` splits a two-part contraction.
pub open spec fn is_contraction(r: Rule) -> bool {
    match r {
        Rule::CanNot | Rule::DYe | Rule::GimMe | Rule::GonNa | Rule::GotTa | Rule::LemMe
        | Rule::MoreN | Rule::WanNa | Rule::TIs | Rule::TWas => true,
        _ => false,
    }
}

/// The contraction that `r` splits, in lower case.
pub open spec fn contraction_word(r: Rule) -> Seq<char> {
    match r {
        Rule::CanNot => seq!['c', 'a', 'n', 'n', 'o', 't'],
        Rule::DYe => seq!['d', '\'', 'y', 'e'],
        Rule::GimMe => seq!['g', 'i', 'm', 'm', 'e'],
        Rule::GonNa => seq!['g', 'o', 'n', 'n', 'a'],
        Rule::GotTa => seq!['g', 'o', 't', 't', 'a'],
        Rule::LemMe => seq!['l', 'e', 'm', 'm', 'e'],
        Rule::MoreN => seq!['m', 'o', 'r', 'e', '\'', 'n'],
        Rule::WanNa => seq!['w', 'a', 'n', 'n', 'a'],
        Rule::TIs => seq!['\'', 't', 'i', 's'],
        _ => seq!['\'', 't', 'w', 'a', 's'],
    }
}

/// The length of the first part of the contraction that `r` splits.
pub open spec fn contraction_split(r: Rule) -> int {
    match r {
        Rule::CanNot | Rule::GimMe | Rule::GonNa | Rule::GotTa | Rule::LemMe | Rule::WanNa => 3,
        Rule::DYe => 1,
        Rule::MoreN => 4,
        _ => 2,
    }
}

/// Whether the contraction of `r` must come after a space (else after a word boundary).
pub open spec fn after_space(r: Rule) -> bool {
    r == Rule::TIs || r == Rule::TWas
}

/// The match of a contraction rule at position `i`.
pub open spec fn contraction_match(r: Rule, s: Seq<char>, i: int) -> Option<(int, Seq<char>)> {
    let w = contraction_word(r);
    let k = contraction_split(r);
    let st = if after_space(r) { i + 1 } else { i };
    let en = st + w.len();
    if 0 <= i && en <= s.len() && (if after_space(r) {
        s[i] == ' '
    } else {
        word_boundary(s, i)
    }) && matches_ignoring_case(s, st, w) && (if r == Rule::WanNa {
        en < s.len() && is_whitespace(s[en])
    } else {
        word_boundary(s, en)
    }) {
        Some(
            (
                en - i,
                seq![' '] + s.subrange(st, st + k) + seq![' '] + s.subrange(st + k, en) + seq![' '],
            ),
        )
    } else {
        None
    }
}

/// The replacement of a one-character renaming rule.
pub open spec fn renamed(c: char, n: char) -> Seq<char> {
    seq!['-', c, n, 'B', '-']
}

/// The match of rule `r` at position `i` of `s`: how many characters it
/// covers, and what replaces them.
pub open spec fn rule_match(r: Rule, s: Seq<char>, i: int) -> Option<(int, Seq<char>)> {
    if !(0 <= i < s.len()) {
        None
    } else {
        let c = s[i];
        match r {
            Rule::StartQuote => if i == 0 && c == '"' {
                Some((1, seq!['`', '`']))
            } else {
                None
            },
            Rule::PadBackticks => if c == '`' && at(s, i + 1, '`') {
                Some((2, seq![' ', '`', '`', ' ']))
            } else {
                None
            },
            Rule::OpenQuote => if is_quote_opener(c) && at(s, i + 1, '"') {
                Some((2, seq![c, ' ', '`', '`', ' ']))
            } else if is_quote_opener(c) && at(s, i + 1, '\'') && at(s, i + 2, '\'') {
                Some((3, seq![c, ' ', '`', '`', ' ']))
            } else {
                None
            },
            Rule::ColonComma => if is_colon_comma(c) && i + 1 < s.len() && !is_decimal_digit(
                s[i + 1],
            ) {
                Some((2, seq![' ', c, ' ', s[i + 1]]))
            } else {
                None
            },
            Rule::ColonCommaAtEnd => if is_colon_comma(c) && i + 1 == s.len() {
                Some((1, padded(c)))
            } else {
                None
            },
            Rule::Ellipsis => if c == '.' && at(s, i + 1, '.') && at(s, i + 2, '.') {
                Some((3, seq![' ', '.', '.', '.', ' ']))
            } else {
                None
            },
            Rule::Symbol => if is_symbol(c) {
                Some((1, padded(c)))
            } else {
                None
            },
            Rule::FinalPeriod => {
                let e = closers_end(s, i + 2);
                if c != '.' && at(s, i + 1, '.') && all_whitespace(s.subrange(e, s.len() as int)) {
                    Some(
                        (
                            s.len() - i,
                            seq![c, ' ', '.'] + s.subrange(i + 2, e) + seq![' '],
                        ),
                    )
                } else {
                    None
                }
            },
            Rule::QuestionExclaim => if c == '?' || c == '!' {
                Some((1, padded(c)))
            } else {
                None
            },
            Rule::ApostropheSpace => if c != '\'' && at(s, i + 1, '\'') && at(s, i + 2, ' ') {
                Some((3, seq![c, ' ', '\'', ' ']))
            } else {
                None
            },
            Rule::PadBracket => if is_bracket(c) {
                Some((1, padded(c)))
            } else {
                None
            },
            Rule::LeftRound => if c == '(' {
                Some((1, renamed('L', 'R')))
            } else {
                None
            },
            Rule::RightRound => if c == ')' {
                Some((1, renamed('R', 'R')))
            } else {
                None
            },
            Rule::LeftSquare => if c == '[' {
                Some((1, renamed('L', 'S')))
            } else {
                None
            },
            Rule::RightSquare => if c == ']' {
                Some((1, renamed('R', 'S')))
            } else {
                None
            },
            Rule::LeftCurly => if c == '{' {
                Some((1, renamed('L', 'C')))
            } else {
                None
            },
            Rule::RightCurly => if c == '}' {
                Some((1, renamed('R', 'C')))
            } else {
                None
            },
            Rule::DoubleDash => if c == '-' && at(s, i + 1, '-') {
                Some((2, seq![' ', '-', '-', ' ']))
            } else {
                None
            },
            Rule::DoubledQuote => if c == '\'' && at(s, i + 1, '\'') {
                Some((2, seq![' ', '\'', '\'', ' ']))
            } else {
                None
            },
            Rule::CloseQuote => if c == '"' {
                Some((1, seq![' ', '\'', '\'', ' ']))
            } else {
                None
            },
            Rule::ShortSuffix => if c != '\'' && c != ' ' && at(s, i + 1, '\'') {
                if i + 2 < s.len() && is_short_suffix_letter(s[i + 2]) && at(s, i + 3, ' ') {
                    Some((4, seq![c, ' ', '\'', s[i + 2], ' ']))
                } else if at(s, i + 2, ' ') {
                    Some((3, seq![c, ' ', '\'', ' ']))
                } else {
                    None
                }
            } else {
                None
            },
            Rule::LongSuffix => if c != '\'' && c != ' ' && i + 4 < s.len() && is_long_suffix(
                s[i + 1],
                s[i + 2],
                s[i + 3],
            ) && s[i + 4] == ' ' {
                Some((5, seq![c, ' ', s[i + 1], s[i + 2], s[i + 3], ' ']))
            } else {
                None
            },
            _ => contraction_match(r, s, i),
        }
    }
}

/// The result of applying rule `r` to `s` from position `i` on.
pub open spec fn rewrite_from(r: Rule, s: Seq<char>, i: int) -> Seq<char>
    decreases s.len() - i,
{
    if i < 0 || i >= s.len() {
        Seq::empty()
    } else {
        match rule_match(r, s, i) {
            Some((n, rep)) => if n >= 1 {
                rep + rewrite_from(r, s, i + n)
            } else {
                seq![s[i]] + rewrite_from(r, s, i + 1)
            },
            None => seq![s[i]] + rewrite_from(r, s, i + 1),
        }
    }
}

/// The result of applying rule `r` to the whole of `s`.
pub open spec fn rewrite(r: Rule, s: Seq<char>) -> Seq<char> {
    rewrite_from(r, s, 0)
}

/// The result of applying `rules` to `s`, first to last.
pub open spec fn rewrite_all(rules: Seq<Rule>, s: Seq<char>) -> Seq<char>
    decreases rules.len(),
{
    if rules.len() == 0 {
        s
    } else {
        rewrite_all(rules.drop_first(), rewrite(rules[0], s))
    }
}

} // verus!
