//! What becomes of round, square and curly brackets: the middle rules rename
//! each of them, and no later rule brings one back.
use vstd::prelude::*;
use crate::rules::{
    contraction_match, is_contraction, rewrite, rewrite_all, rewrite_from, rule_match, Rule,
};
use crate::text::{is_whitespace, split_from, split_whitespace, trim};
use crate::treebank::{contraction_rules, final_rules, mid_rules, rewritten, treebank_tokens};

verus! {

/// The place of a bracket character in the order in which the middle rules
/// rename them: `(` `)` `[` `]` `{` `}` are 1 to 6, any other character 0.
pub open spec fn bracket_rank(c: char) -> int {
    if c == '(' {
        1
    } else if c == ')' {
        2
    } else if c == '[' {
        3
    } else if c == ']' {
        4
    } else if c == '{' {
        5
    } else if c == '}' {
        6
    } else {
        0
    }
}

/// Whether `c` is none of the first `k` brackets.
pub open spec fn outside(c: char, k: int) -> bool {
    !(1 <= bracket_rank(c) <= k)
}

/// Whether `s` holds none of the first `k` brackets.
pub open spec fn free_of(s: Seq<char>, k: int) -> bool {
    forall|i: int| 0 <= i < s.len() ==> outside(#[trigger] s[i], k)
}

/// Whether what rule `r` emits at position `i` of `s` holds none of the
/// first `k` brackets.
pub open spec fn emits_free(r: Rule, s: Seq<char>, i: int, k: int) -> bool {
    match rule_match(r, s, i) {
        Some((n, rep)) => if n >= 1 {
            free_of(rep, k)
        } else {
            outside(s[i], k)
        },
        None => outside(s[i], k),
    }
}

proof fn lemma_free_concat(a: Seq<char>, b: Seq<char>, k: int)
    requires
        free_of(a, k),
        free_of(b, k),
    ensures
        free_of(a + b, k),
{
    assert forall|i: int| 0 <= i < (a + b).len() implies outside(#[trigger] (a + b)[i], k) by {
        if i < a.len() {
            assert((a + b)[i] == a[i]);
        } else {
            assert((a + b)[i] == b[i - a.len()]);
        }
    }
}

proof fn lemma_rewrite_from_free(r: Rule, s: Seq<char>, j: int, k: int)
    requires
        0 <= j,
        forall|i: int| j <= i < s.len() ==> #[trigger] emits_free(r, s, i, k),
    ensures
        free_of(rewrite_from(r, s, j), k),
    decreases s.len() - j,
{
    if j < s.len() {
        assert(emits_free(r, s, j, k));
        match rule_match(r, s, j) {
            Some((n, rep)) => {
                if n >= 1 {
                    lemma_rewrite_from_free(r, s, j + n, k);
                    lemma_free_concat(rep, rewrite_from(r, s, j + n), k);
                } else {
                    lemma_rewrite_from_free(r, s, j + 1, k);
                    lemma_free_concat(seq![s[j]], rewrite_from(r, s, j + 1), k);
                }
            },
            None => {
                lemma_rewrite_from_free(r, s, j + 1, k);
                lemma_free_concat(seq![s[j]], rewrite_from(r, s, j + 1), k);
            },
        }
    }
}

/// The rank of the bracket that a renaming rule renames; 0 for other rules.
pub open spec fn renamed_rank(r: Rule) -> int {
    match r {
        Rule::LeftRound => 1,
        Rule::RightRound => 2,
        Rule::LeftSquare => 3,
        Rule::RightSquare => 4,
        Rule::LeftCurly => 5,
        Rule::RightCurly => 6,
        _ => 0,
    }
}

proof fn lemma_contraction_emits_free(r: Rule, s: Seq<char>, i: int)
    requires
        is_contraction(r),
        free_of(s, 6),
        0 <= i < s.len(),
    ensures
        emits_free(r, s, i, 6),
{
    match contraction_match(r, s, i) {
        Some((n, rep)) => {
            assert(rep.len() > 0);
            assert forall|m: int| 0 <= m < rep.len() implies outside(#[trigger] rep[m], 6) by {
                let w = crate::rules::contraction_word(r);
                let st = if crate::rules::after_space(r) { i + 1 } else { i };
                let kk = crate::rules::contraction_split(r);
                let en = st + w.len();
                let p1 = seq![' '] + s.subrange(st, st + kk);
                let p2 = p1 + seq![' '];
                let p3 = p2 + s.subrange(st + kk, en);
                assert(rep == p3 + seq![' ']);
                if m < p1.len() {
                    if m >= 1 {
                        assert(p1[m] == s[st + m - 1]);
                    }
                    assert(rep[m] == p1[m]);
                } else if m < p2.len() {
                    assert(rep[m] == ' ');
                } else if m < p3.len() {
                    assert(p3[m] == s[st + kk + (m - p2.len())]);
                    assert(rep[m] == p3[m]);
                } else {
                    assert(rep[m] == ' ');
                }
            }
        },
        None => {},
    }
}

proof fn lemma_closers_end_bounds(s: Seq<char>, j: int)
    requires
        0 <= j <= s.len(),
    ensures
        j <= crate::rules::closers_end(s, j) <= s.len(),
    decreases s.len() - j,
{
    if j < s.len() && crate::rules::is_period_closer(s[j]) {
        lemma_closers_end_bounds(s, j + 1);
    }
}

/// A rule that is not a renaming one brings no bracket into a text that has none.
proof fn lemma_rule_emits_free(r: Rule, s: Seq<char>, i: int)
    requires
        renamed_rank(r) == 0,
        free_of(s, 6),
        0 <= i < s.len(),
    ensures
        emits_free(r, s, i, 6),
{
    if is_contraction(r) {
        lemma_contraction_emits_free(r, s, i);
    } else if r == Rule::FinalPeriod {
        match rule_match(r, s, i) {
            Some((n, rep)) => {
                let e = crate::rules::closers_end(s, i + 2);
                assert(crate::rules::at(s, i + 1, '.'));
                lemma_closers_end_bounds(s, i + 2);
                let mid = s.subrange(i + 2, e);
                assert(free_of(mid, 6)) by {
                    assert forall|m: int| 0 <= m < mid.len() implies outside(#[trigger] mid[m], 6) by {
                        assert(mid[m] == s[i + 2 + m]);
                    }
                }
                lemma_free_concat(seq![s[i], ' ', '.'], mid, 6);
                lemma_free_concat(seq![s[i], ' ', '.'] + mid, seq![' '], 6);
            },
            None => {},
        }
    } else {
        assert(outside(s[i], 6));
        if i + 1 < s.len() {
            assert(outside(s[i + 1], 6));
        }
        if i + 2 < s.len() {
            assert(outside(s[i + 2], 6));
        }
        if i + 3 < s.len() {
            assert(outside(s[i + 3], 6));
        }
        match rule_match(r, s, i) {
            Some((n, rep)) => {
                assert(free_of(rep, 6));
            },
            None => {},
        }
    }
}

proof fn lemma_rename_emits_free(r: Rule, s: Seq<char>, i: int)
    requires
        1 <= renamed_rank(r),
        free_of(s, renamed_rank(r) - 1),
        0 <= i < s.len(),
    ensures
        emits_free(r, s, i, renamed_rank(r)),
{
    assert(outside(s[i], renamed_rank(r) - 1));
}

proof fn lemma_rewrite_free(r: Rule, s: Seq<char>)
    requires
        renamed_rank(r) == 0 ==> free_of(s, 6),
        1 <= renamed_rank(r) ==> free_of(s, renamed_rank(r) - 1),
    ensures
        free_of(rewrite(r, s), if renamed_rank(r) == 0 { 6 } else { renamed_rank(r) }),
{
    let k = if renamed_rank(r) == 0 { 6 } else { renamed_rank(r) };
    assert forall|i: int| 0 <= i < s.len() implies #[trigger] emits_free(r, s, i, k) by {
        if renamed_rank(r) == 0 {
            lemma_rule_emits_free(r, s, i);
        } else {
            lemma_rename_emits_free(r, s, i);
        }
    }
    lemma_rewrite_from_free(r, s, 0, k);
}

proof fn lemma_rewrite_all_step(rules: Seq<Rule>, j: int, s: Seq<char>)
    requires
        0 <= j < rules.len(),
    ensures
        rewrite_all(rules.skip(j), s) == rewrite_all(rules.skip(j + 1), rewrite(rules[j], s)),
{
    assert(rules.skip(j).drop_first() == rules.skip(j + 1));
    assert(rules.skip(j)[0] == rules[j]);
}

proof fn lemma_keep_free_from(rules: Seq<Rule>, j: int, s: Seq<char>)
    requires
        0 <= j <= rules.len(),
        free_of(s, 6),
        forall|idx: int| j <= idx < rules.len() ==> renamed_rank(#[trigger] rules[idx]) == 0,
    ensures
        free_of(rewrite_all(rules.skip(j), s), 6),
    decreases rules.len() - j,
{
    if j < rules.len() {
        assert(renamed_rank(rules[j]) == 0);
        lemma_rewrite_free(rules[j], s);
        lemma_rewrite_all_step(rules, j, s);
        lemma_keep_free_from(rules, j + 1, rewrite(rules[j], s));
    } else {
        assert(rules.skip(j).len() == 0);
    }
}

proof fn lemma_mid_free_from(j: int, s: Seq<char>)
    requires
        0 <= j <= 6,
        free_of(s, j),
    ensures
        free_of(rewrite_all(mid_rules().skip(j), s), 6),
    decreases 6 - j,
{
    let rules = mid_rules();
    if j < 6 {
        assert(renamed_rank(rules[j]) == j + 1);
        lemma_rewrite_free(rules[j], s);
        lemma_rewrite_all_step(rules, j, s);
        lemma_mid_free_from(j + 1, rewrite(rules[j], s));
    } else {
        assert(renamed_rank(rules[6]) == 0);
        lemma_keep_free_from(rules, 6, s);
    }
}

proof fn lemma_mid_free(s: Seq<char>)
    ensures
        free_of(rewrite_all(mid_rules(), s), 6),
{
    assert(mid_rules().skip(0) == mid_rules());
    lemma_mid_free_from(0, s);
}

proof fn lemma_group_free(rules: Seq<Rule>, s: Seq<char>)
    requires
        free_of(s, 6),
        forall|idx: int| 0 <= idx < rules.len() ==> renamed_rank(#[trigger] rules[idx]) == 0,
    ensures
        free_of(rewrite_all(rules, s), 6),
{
    assert(rules.skip(0) == rules);
    lemma_keep_free_from(rules, 0, s);
}

proof fn lemma_split_from_free(s: Seq<char>, toks: Seq<Seq<char>>, cur: Seq<char>)
    requires
        free_of(s, 6),
        free_of(cur, 6),
        forall|t: int| 0 <= t < toks.len() ==> free_of(#[trigger] toks[t], 6),
    ensures
        forall|t: int| 0 <= t < split_from(s, toks, cur).len() ==> free_of(
            #[trigger] split_from(s, toks, cur)[t],
            6,
        ),
    decreases s.len(),
{
    let done = if cur.len() > 0 {
        toks.push(cur)
    } else {
        toks
    };
    assert(forall|t: int| 0 <= t < done.len() ==> free_of(#[trigger] done[t], 6));
    if s.len() > 0 {
        assert(outside(s[0], 6));
        assert(free_of(s.drop_first(), 6));
        if is_whitespace(s[0]) {
            lemma_split_from_free(s.drop_first(), done, Seq::empty());
            assert(split_from(s, toks, cur) == split_from(s.drop_first(), done, Seq::empty()));
        } else {
            assert(free_of(cur.push(s[0]), 6));
            lemma_split_from_free(s.drop_first(), toks, cur.push(s[0]));
            assert(split_from(s, toks, cur) == split_from(s.drop_first(), toks, cur.push(s[0])));
        }
    } else {
        assert(split_from(s, toks, cur) == done);
    }
}

/// No token holds a round, square or curly bracket: the middle rules rename
/// each of them (`(` to `-LRB-`, `)` to `-RRB-`, `[` to `-LSB-`, `]` to
/// `-RSB-`, `{` to `-LCB-`, `}` to `-RCB-`) and no later rule brings one back.
pub proof fn lemma_no_bracket_survives(text: Seq<char>)
    ensures
        forall|t: int, m: int|
            0 <= t < treebank_tokens(text).len() && 0 <= m < treebank_tokens(text)[t].len()
                ==> bracket_rank(#[trigger] treebank_tokens(text)[t][m]) == 0,
{
    let t0 = trim(text);
    let middle = rewrite_all(mid_rules(), rewrite_all(crate::treebank::initial_rules(), t0));
    lemma_mid_free(rewrite_all(crate::treebank::initial_rules(), t0));
    let padded = seq![' '] + middle + seq![' '];
    lemma_free_concat(seq![' '], middle, 6);
    lemma_free_concat(seq![' '] + middle, seq![' '], 6);
    let fr = final_rules();
    assert forall|idx: int| 0 <= idx < fr.len() implies renamed_rank(#[trigger] fr[idx]) == 0 by {}
    lemma_group_free(fr, padded);
    let cr = contraction_rules();
    assert forall|idx: int| 0 <= idx < cr.len() implies renamed_rank(#[trigger] cr[idx]) == 0 by {}
    lemma_group_free(cr, rewrite_all(fr, padded));
    let out = rewritten(t0);
    lemma_split_from_free(out, Seq::empty(), Seq::empty());
    let toks = treebank_tokens(text);
    assert(toks == split_whitespace(out));
    assert forall|t: int, m: int| 0 <= t < toks.len() && 0 <= m < toks[t].len() implies bracket_rank(
        #[trigger] toks[t][m],
    ) == 0 by {
        assert(free_of(toks[t], 6));
        assert(outside(toks[t][m], 6));
    }
}

} // verus!
