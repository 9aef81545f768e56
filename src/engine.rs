//! Executable matching of the rewrite rules, and their application to a text.
use vstd::prelude::*;
use crate::classes::{decimal_digit, word_char};
use crate::rules::{
    after_space, at, closers_end, contraction_match, contraction_split, contraction_word, is_bracket,
    is_colon_comma, is_contraction, is_long_suffix, is_period_closer, is_quote_opener,
    is_short_suffix_letter, is_symbol, matches_ignoring_case, rewrite, rewrite_all, rewrite_from, rule_match, same_letter, word_at,
    word_boundary, Rule,
};
use crate::text::{all_whitespace, is_whitespace, whitespace};

verus! {

fn char_at(s: &Vec<char>, i: usize, c: char) -> (r: bool)
    ensures
        r == at(s@, i as int, c),
{
    i < s.len() && s[i] == c
}

fn quote_opener(c: char) -> (r: bool)
    ensures
        r == is_quote_opener(c),
{
    c == ' ' || c == '(' || c == '[' || c == '{' || c == '<'
}

fn colon_comma(c: char) -> (r: bool)
    ensures
        r == is_colon_comma(c),
{
    c == ':' || c == ','
}

fn symbol(c: char) -> (r: bool)
    ensures
        r == is_symbol(c),
{
    c == ';' || c == '@' || c == '#' || c == '$' || c == '%' || c == '&'
}

fn bracket(c: char) -> (r: bool)
    ensures
        r == is_bracket(c),
{
    c == '[' || c == ']' || c == '(' || c == ')' || c == '{' || c == '}' || c == '<' || c == '>'
}

fn period_closer(c: char) -> (r: bool)
    ensures
        r == is_period_closer(c),
{
    c == ']' || c == ')' || c == '}' || c == '>' || c == '"' || c == '\''
}

fn short_suffix_letter(c: char) -> (r: bool)
    ensures
        r == is_short_suffix_letter(c),
{
    c == 's' || c == 'S' || c == 'm' || c == 'M' || c == 'd' || c == 'D'
}

fn long_suffix(a: char, b: char, c: char) -> (r: bool)
    ensures
        r == is_long_suffix(a, b, c),
{
    (a == '\'' && ((b == 'l' && c == 'l') || (b == 'L' && c == 'L') || (b == 'r' && c == 'e') || (b
        == 'R' && c == 'E') || (b == 'v' && c == 'e') || (b == 'V' && c == 'E'))) || (a == 'n' && b
        == '\'' && c == 't') || (a == 'N' && b == '\'' && c == 'T')
}

fn letter_matches(c: char, l: char) -> (r: bool)
    ensures
        r == same_letter(c, l),
{
    c == l || ('a' <= l && l <= 'z' && c as u32 == l as u32 - 32) || (l == 's' && c == '\u{17f}')
}

/// Appends `s[a..b]` to `out`.
fn push_range(out: &mut Vec<char>, s: &Vec<char>, a: usize, b: usize)
    requires
        a <= b <= s.len(),
    ensures
        final(out)@ == old(out)@ + s@.subrange(a as int, b as int),
{
    let mut j = a;
    while j < b
        invariant
            a <= j <= b <= s.len(),
            out@ == old(out)@ + s@.subrange(a as int, j as int),
        decreases b - j,
    {
        out.push(s[j]);
        assert(s@.subrange(a as int, j + 1) == s@.subrange(a as int, j as int).push(s@[j as int]));
        j += 1;
    }
}

fn word_at_exec(s: &Vec<char>, j: usize) -> (r: bool)
    ensures
        r == word_at(s@, j as int),
{
    j < s.len() && word_char(s[j])
}

fn boundary(s: &Vec<char>, j: usize) -> (r: bool)
    ensures
        r == word_boundary(s@, j as int),
{
    let before = if j == 0 {
        false
    } else {
        word_at_exec(s, j - 1)
    };
    before != word_at_exec(s, j)
}

fn contraction_literal(r: Rule) -> (res: (Vec<char>, usize))
    requires
        is_contraction(r),
    ensures
        res.0@ == contraction_word(r),
        res.1 as int == contraction_split(r),
        1 <= res.1 < res.0@.len(),
{
    match r {
        Rule::CanNot => (vec!['c', 'a', 'n', 'n', 'o', 't'], 3),
        Rule::DYe => (vec!['d', '\'', 'y', 'e'], 1),
        Rule::GimMe => (vec!['g', 'i', 'm', 'm', 'e'], 3),
        Rule::GonNa => (vec!['g', 'o', 'n', 'n', 'a'], 3),
        Rule::GotTa => (vec!['g', 'o', 't', 't', 'a'], 3),
        Rule::LemMe => (vec!['l', 'e', 'm', 'm', 'e'], 3),
        Rule::MoreN => (vec!['m', 'o', 'r', 'e', '\'', 'n'], 4),
        Rule::WanNa => (vec!['w', 'a', 'n', 'n', 'a'], 3),
        Rule::TIs => (vec!['\'', 't', 'i', 's'], 2),
        _ => (vec!['\'', 't', 'w', 'a', 's'], 2),
    }
}

/// The match of a contraction rule at position `i`.
fn find_contraction(r: Rule, s: &Vec<char>, i: usize) -> (res: Option<(usize, Vec<char>)>)
    requires
        is_contraction(r),
        i < s.len(),
    ensures
        match res {
            Some((n, v)) => contraction_match(r, s@, i as int) == Some((n as int, v@)) && n >= 1
                && i + n <= s.len(),
            None => contraction_match(r, s@, i as int) is None,
        },
{
    let (w, k) = contraction_literal(r);
    let spaced = r == Rule::TIs || r == Rule::TWas;
    let st = if spaced {
        i + 1
    } else {
        i
    };
    if st > s.len() || w.len() > s.len() - st {
        return None;
    }
    let en = st + w.len();
    assert(after_space(r) == spaced);
    let lead = if spaced {
        s[i] == ' '
    } else {
        boundary(s, i)
    };
    if !lead {
        return None;
    }
    let mut j: usize = 0;
    while j < w.len()
        invariant
            j <= w.len(),
            en == st + w@.len(),
            en <= s.len(),
            i < s.len(),
            w@ == contraction_word(r),
            st == (if after_space(r) { i + 1 } else { i as int }),
            if after_space(r) { s@[i as int] == ' ' } else { word_boundary(s@, i as int) },
            forall|m: int| 0 <= m < j ==> same_letter(#[trigger] s@[st + m], w@[m]),
        decreases w.len() - j,
    {
        if !letter_matches(s[st + j], w[j]) {
            assert(!same_letter(s@[st + j as int], w@[j as int]));
            assert(!matches_ignoring_case(s@, st as int, w@));
            assert(contraction_match(r, s@, i as int) is None);
            return None;
        }
        j += 1;
    }
    assert(matches_ignoring_case(s@, st as int, w@));
    let trail = if r == Rule::WanNa {
        en < s.len() && whitespace(s[en])
    } else {
        boundary(s, en)
    };
    if !trail {
        return None;
    }
    let mut v: Vec<char> = vec![' '];
    push_range(&mut v, s, st, st + k);
    v.push(' ');
    push_range(&mut v, s, st + k, en);
    v.push(' ');
    Some((en - i, v))
}

/// The match of the final-period rule at position `i`.
fn find_final_period(s: &Vec<char>, i: usize) -> (res: Option<(usize, Vec<char>)>)
    requires
        i < s.len(),
    ensures
        match res {
            Some((n, v)) => rule_match(Rule::FinalPeriod, s@, i as int) == Some((n as int, v@))
                && n >= 1 && i + n <= s.len(),
            None => rule_match(Rule::FinalPeriod, s@, i as int) is None,
        },
{
    let c = s[i];
    if c == '.' || !char_at(s, i + 1, '.') {
        return None;
    }
    let mut e = i + 2;
    while e < s.len() && period_closer(s[e])
        invariant
            i + 2 <= e <= s.len(),
            closers_end(s@, i + 2) == closers_end(s@, e as int),
        decreases s.len() - e,
    {
        e += 1;
    }
    assert(closers_end(s@, e as int) == e);
    let mut m = e;
    while m < s.len() && whitespace(s[m])
        invariant
            e <= m <= s.len(),
            forall|k: int| e <= k < m ==> is_whitespace(#[trigger] s@[k]),
        decreases s.len() - m,
    {
        m += 1;
    }
    if m < s.len() {
        assert(!is_whitespace(s@.subrange(e as int, s.len() as int)[m - e]));
        return None;
    }
    assert(all_whitespace(s@.subrange(e as int, s.len() as int)));
    let mut v: Vec<char> = vec![c, ' ', '.'];
    push_range(&mut v, s, i + 2, e);
    v.push(' ');
    Some((s.len() - i, v))
}

/// The match of rule `r` at position `i` of `s`.
pub(crate) fn find_match(r: Rule, s: &Vec<char>, i: usize) -> (res: Option<(usize, Vec<char>)>)
    requires
        i < s.len(),
    ensures
        match res {
            Some((n, v)) => rule_match(r, s@, i as int) == Some((n as int, v@)) && n >= 1 && i + n
                <= s.len(),
            None => rule_match(r, s@, i as int) is None,
        },
{
    let c = s[i];
    let len = s.len();
    match r {
        Rule::StartQuote => if i == 0 && c == '"' {
            Some((1, vec!['`', '`']))
        } else {
            None
        },
        Rule::PadBackticks => if c == '`' && char_at(s, i + 1, '`') {
            Some((2, vec![' ', '`', '`', ' ']))
        } else {
            None
        },
        Rule::OpenQuote => if quote_opener(c) && char_at(s, i + 1, '"') {
            Some((2, vec![c, ' ', '`', '`', ' ']))
        } else if quote_opener(c) && char_at(s, i + 1, '\'') && char_at(s, i + 2, '\'') {
            Some((3, vec![c, ' ', '`', '`', ' ']))
        } else {
            None
        },
        Rule::ColonComma => if colon_comma(c) && i + 1 < len && !decimal_digit(s[i + 1]) {
            Some((2, vec![' ', c, ' ', s[i + 1]]))
        } else {
            None
        },
        Rule::ColonCommaAtEnd => if colon_comma(c) && i + 1 == len {
            Some((1, vec![' ', c, ' ']))
        } else {
            None
        },
        Rule::Ellipsis => if c == '.' && char_at(s, i + 1, '.') && char_at(s, i + 2, '.') {
            Some((3, vec![' ', '.', '.', '.', ' ']))
        } else {
            None
        },
        Rule::Symbol => if symbol(c) {
            Some((1, vec![' ', c, ' ']))
        } else {
            None
        },
        Rule::FinalPeriod => find_final_period(s, i),
        Rule::QuestionExclaim => if c == '?' || c == '!' {
            Some((1, vec![' ', c, ' ']))
        } else {
            None
        },
        Rule::ApostropheSpace => if c != '\'' && char_at(s, i + 1, '\'') && char_at(s, i + 2, ' ') {
            Some((3, vec![c, ' ', '\'', ' ']))
        } else {
            None
        },
        Rule::PadBracket => if bracket(c) {
            Some((1, vec![' ', c, ' ']))
        } else {
            None
        },
        Rule::LeftRound => if c == '(' {
            Some((1, vec!['-', 'L', 'R', 'B', '-']))
        } else {
            None
        },
        Rule::RightRound => if c == ')' {
            Some((1, vec!['-', 'R', 'R', 'B', '-']))
        } else {
            None
        },
        Rule::LeftSquare => if c == '[' {
            Some((1, vec!['-', 'L', 'S', 'B', '-']))
        } else {
            None
        },
        Rule::RightSquare => if c == ']' {
            Some((1, vec!['-', 'R', 'S', 'B', '-']))
        } else {
            None
        },
        Rule::LeftCurly => if c == '{' {
            Some((1, vec!['-', 'L', 'C', 'B', '-']))
        } else {
            None
        },
        Rule::RightCurly => if c == '}' {
            Some((1, vec!['-', 'R', 'C', 'B', '-']))
        } else {
            None
        },
        Rule::DoubleDash => if c == '-' && char_at(s, i + 1, '-') {
            Some((2, vec![' ', '-', '-', ' ']))
        } else {
            None
        },
        Rule::DoubledQuote => if c == '\'' && char_at(s, i + 1, '\'') {
            Some((2, vec![' ', '\'', '\'', ' ']))
        } else {
            None
        },
        Rule::CloseQuote => if c == '"' {
            Some((1, vec![' ', '\'', '\'', ' ']))
        } else {
            None
        },
        Rule::ShortSuffix => if c != '\'' && c != ' ' && char_at(s, i + 1, '\'') {
            if i + 2 < len && short_suffix_letter(s[i + 2]) && char_at(s, i + 3, ' ') {
                Some((4, vec![c, ' ', '\'', s[i + 2], ' ']))
            } else if char_at(s, i + 2, ' ') {
                Some((3, vec![c, ' ', '\'', ' ']))
            } else {
                None
            }
        } else {
            None
        },
        Rule::LongSuffix => if c != '\'' && c != ' ' && len - i > 4 && long_suffix(
            s[i + 1],
            s[i + 2],
            s[i + 3],
        ) && s[i + 4] == ' ' {
            Some((5, vec![c, ' ', s[i + 1], s[i + 2], s[i + 3], ' ']))
        } else {
            None
        },
        _ => find_contraction(r, s, i),
    }
}

/// Applies rule `r` to the whole of `s`.
pub(crate) fn rewrite_text(r: Rule, s: &Vec<char>) -> (out: Vec<char>)
    ensures
        out@ == rewrite(r, s@),
{
    let mut out: Vec<char> = Vec::new();
    let mut i: usize = 0;
    while i < s.len()
        invariant
            i <= s.len(),
            out@ + rewrite_from(r, s@, i as int) == rewrite_from(r, s@, 0),
        decreases s.len() - i,
    {
        let ghost before = out@;
        match find_match(r, s, i) {
            Some((n, v)) => {
                let mut v = v;
                let ghost rep = v@;
                assert(rewrite_from(r, s@, i as int) == rep + rewrite_from(r, s@, i + n));
                out.append(&mut v);
                assert(before + (rep + rewrite_from(r, s@, i + n)) == out@ + rewrite_from(r, s@, i + n));
                i = i + n;
            },
            None => {
                assert(rewrite_from(r, s@, i as int) == seq![s@[i as int]] + rewrite_from(r, s@, i + 1));
                out.push(s[i]);
                assert(before + (seq![s@[i as int]] + rewrite_from(r, s@, i + 1)) == out@ + rewrite_from(r, s@, i + 1));
                i = i + 1;
            },
        }
    }
    assert(rewrite_from(r, s@, i as int) == Seq::<char>::empty());
    assert(out@ + Seq::<char>::empty() == out@);
    out
}

/// Applies `rules` to `s`, first to last.
pub(crate) fn rewrite_text_all(rules: &Vec<Rule>, s: Vec<char>) -> (out: Vec<char>)
    ensures
        out@ == rewrite_all(rules@, s@),
{
    let mut cur = s;
    let mut k: usize = 0;
    assert(rules@.skip(0) == rules@);
    while k < rules.len()
        invariant
            k <= rules.len(),
            rewrite_all(rules@, s@) == rewrite_all(rules@.skip(k as int), cur@),
        decreases rules.len() - k,
    {
        assert(rules@.skip(k as int).drop_first() == rules@.skip(k + 1));
        cur = rewrite_text(rules[k], &cur);
        k += 1;
    }
    assert(rules@.skip(k as int).len() == 0);
    cur
}

} // verus!
