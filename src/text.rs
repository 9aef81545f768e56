//! Characters, whitespace and trimming, shared by every tokenizer.
use vstd::prelude::*;

verus! {

/// Unicode `White_Space`: the characters that `str::trim`, `str::split_whitespace`
/// and a regular expression's `\s` treat as whitespace.
pub open spec fn is_whitespace(c: char) -> bool {
    let u = c as u32;
    (0x09 <= u && u <= 0x0d) || u == 0x20 || u == 0x85 || u == 0xa0 || u == 0x1680
        || (0x2000 <= u && u <= 0x200a) || u == 0x2028 || u == 0x2029 || u == 0x202f
        || u == 0x205f || u == 0x3000
}

/// `s` without its leading whitespace.
pub open spec fn trim_start(s: Seq<char>) -> Seq<char>
    decreases s.len(),
{
    if s.len() > 0 && is_whitespace(s[0]) {
        trim_start(s.drop_first())
    } else {
        s
    }
}

/// `s` without its trailing whitespace.
pub open spec fn trim_end(s: Seq<char>) -> Seq<char>
    decreases s.len(),
{
    if s.len() > 0 && is_whitespace(s.last()) {
        trim_end(s.drop_last())
    } else {
        s
    }
}

/// `s` without its leading and trailing whitespace.
pub open spec fn trim(s: Seq<char>) -> Seq<char> {
    trim_end(trim_start(s))
}

/// Whether every character of `s` is whitespace.
pub open spec fn all_whitespace(s: Seq<char>) -> bool {
    forall|i: int| 0 <= i < s.len() ==> is_whitespace(#[trigger] s[i])
}

/// Whether `s` holds no whitespace character.
pub open spec fn no_whitespace(s: Seq<char>) -> bool {
    forall|i: int| 0 <= i < s.len() ==> !is_whitespace(#[trigger] s[i])
}

/// Relies on `str::trim`: the slice without leading and trailing `White_Space`.
#[verifier::external_body]
pub(crate) fn trim_str(s: &str) -> (r: &str)
    ensures
        r@ == trim(s@),
{
    s.trim()
}

/// Relies on `String::push`: appends one character.
#[verifier::external_body]
pub(crate) fn push_char(s: &mut String, c: char)
    ensures
        final(s)@ == old(s)@.push(c),
{
    s.push(c)
}

/// Runs the checks on a piece produced by a splitter: `None` for an empty
/// piece, otherwise the piece with its surrounding whitespace removed.
pub fn process_str(s: &str) -> (r: Option<&str>)
    ensures
        s@.len() == 0 ==> r.is_none(),
        s@.len() > 0 ==> r.is_some() && r.unwrap()@ == trim(s@),
{
    let trimmed = trim_str(s);
    if s.is_empty() {
        return None;
    }
    Some(trimmed)
}

/// The characters of `s`, in order.
pub fn chars_of(s: &str) -> (r: Vec<char>)
    ensures
        r@ == s@,
{
    let mut v: Vec<char> = Vec::new();
    for c in it: s.chars()
        invariant
            it.seq() == s@,
            v@ == s@.take(it.index() as int),
    {
        v.push(c);
    }
    assert(v@ == s@.take(s@.len() as int));
    v
}

/// The string whose characters are `v`.
pub fn string_of(v: &Vec<char>) -> (r: String)
    ensures
        r@ == v@,
{
    let mut s = String::new();
    let mut i: usize = 0;
    while i < v.len()
        invariant
            i <= v.len(),
            s@ == v@.take(i as int),
        decreases v.len() - i,
    {
        push_char(&mut s, v[i]);
        assert(v@.take(i + 1) == v@.take(i as int).push(v@[i as int]));
        i += 1;
    }
    assert(v@.take(v.len() as int) == v@);
    s
}

} // verus!

verus! {

/// Whether `c` is whitespace.
pub fn whitespace(c: char) -> (r: bool)
    ensures
        r == is_whitespace(c),
{
    let u = c as u32;
    (0x09 <= u && u <= 0x0d) || u == 0x20 || u == 0x85 || u == 0xa0 || u == 0x1680 || (0x2000
        <= u && u <= 0x200a) || u == 0x2028 || u == 0x2029 || u == 0x202f || u == 0x205f || u
        == 0x3000
}

} // verus!

verus! {

/// Splitting on whitespace, with `toks` the tokens found so far and `cur`
/// the token being read.
pub open spec fn split_from(s: Seq<char>, toks: Seq<Seq<char>>, cur: Seq<char>) -> Seq<Seq<char>>
    decreases s.len(),
{
    let done = if cur.len() > 0 {
        toks.push(cur)
    } else {
        toks
    };
    if s.len() == 0 {
        done
    } else if is_whitespace(s[0]) {
        split_from(s.drop_first(), done, Seq::empty())
    } else {
        split_from(s.drop_first(), toks, cur.push(s[0]))
    }
}

/// The maximal runs of non-whitespace characters of `s`, in order.
pub open spec fn split_whitespace(s: Seq<char>) -> Seq<Seq<char>> {
    split_from(s, Seq::empty(), Seq::empty())
}

/// The tokens of `s`: its maximal runs of non-whitespace characters, each
/// as an owned string.
pub fn split_tokens(s: &Vec<char>) -> (r: Vec<String>)
    ensures
        r.deep_view() == split_whitespace(s@),
{
    let mut toks: Vec<String> = Vec::new();
    let mut cur: Vec<char> = Vec::new();
    let mut i: usize = 0;
    assert(s@.skip(0) == s@);
    assert(toks.deep_view() == Seq::<Seq<char>>::empty());
    while i < s.len()
        invariant
            i <= s.len(),
            split_whitespace(s@) == split_from(s@.skip(i as int), toks.deep_view(), cur@),
        decreases s.len() - i,
    {
        assert(s@.skip(i as int).drop_first() == s@.skip(i + 1));
        assert(s@.skip(i as int)[0] == s@[i as int]);
        let ghost old_toks = toks.deep_view();
        let ghost old_cur = cur@;
        assert(split_from(s@.skip(i as int), old_toks, old_cur) == if is_whitespace(s@[i as int]) {
            split_from(s@.skip(i + 1), if old_cur.len() > 0 { old_toks.push(old_cur) } else { old_toks }, Seq::empty())
        } else {
            split_from(s@.skip(i + 1), old_toks, old_cur.push(s@[i as int]))
        });
        if whitespace(s[i]) {
            if cur.len() > 0 {
                let ghost before = toks.deep_view();
                toks.push(string_of(&cur));
                assert(toks.deep_view() == before.push(cur@));
                cur = Vec::new();
            } else {
                assert(cur@ == Seq::<char>::empty());
            }
        } else {
            cur.push(s[i]);
        }
        i += 1;
    }
    assert(s@.skip(i as int).len() == 0);
    if cur.len() > 0 {
        let ghost before = toks.deep_view();
        toks.push(string_of(&cur));
        assert(toks.deep_view() == before.push(cur@));
    }
    toks
}

} // verus!

verus! {

/// Whether `t` can be a token: non-empty and free of whitespace.
pub open spec fn is_token(t: Seq<char>) -> bool {
    t.len() > 0 && no_whitespace(t)
}

/// Whether every element of `toks` can be a token.
pub open spec fn all_tokens(toks: Seq<Seq<char>>) -> bool {
    forall|k: int| 0 <= k < toks.len() ==> is_token(#[trigger] toks[k])
}

/// The elements of `toks` with one space between each two.
pub open spec fn join_spaces(toks: Seq<Seq<char>>) -> Seq<char>
    decreases toks.len(),
{
    if toks.len() == 0 {
        Seq::empty()
    } else if toks.len() == 1 {
        toks[0]
    } else {
        toks[0] + seq![' '] + join_spaces(toks.drop_first())
    }
}

proof fn lemma_split_from_tokens(s: Seq<char>, toks: Seq<Seq<char>>, cur: Seq<char>)
    requires
        all_tokens(toks),
        no_whitespace(cur),
    ensures
        all_tokens(split_from(s, toks, cur)),
    decreases s.len(),
{
    if s.len() > 0 {
        if is_whitespace(s[0]) {
            let done = if cur.len() > 0 {
                toks.push(cur)
            } else {
                toks
            };
            assert(all_tokens(done));
            lemma_split_from_tokens(s.drop_first(), done, Seq::empty());
        } else {
            assert(no_whitespace(cur.push(s[0])));
            lemma_split_from_tokens(s.drop_first(), toks, cur.push(s[0]));
        }
    }
}

proof fn lemma_split_from_word(t: Seq<char>, rest: Seq<char>, toks: Seq<Seq<char>>, cur: Seq<char>)
    requires
        no_whitespace(t),
    ensures
        split_from(t + rest, toks, cur) == split_from(rest, toks, cur + t),
    decreases t.len(),
{
    if t.len() == 0 {
        assert(t + rest == rest);
        assert(cur + t == cur);
    } else {
        assert((t + rest)[0] == t[0]);
        assert((t + rest).drop_first() == t.drop_first() + rest);
        assert(cur.push(t[0]) + t.drop_first() == cur + t);
        lemma_split_from_word(t.drop_first(), rest, toks, cur.push(t[0]));
    }
}

proof fn lemma_split_join(toks: Seq<Seq<char>>, acc: Seq<Seq<char>>)
    requires
        all_tokens(toks),
    ensures
        split_from(join_spaces(toks), acc, Seq::empty()) == acc + toks,
    decreases toks.len(),
{
    let e = Seq::<char>::empty();
    if toks.len() == 0 {
        assert(acc + toks == acc);
    } else {
        assert(is_token(toks[0]));
        assert(e + toks[0] == toks[0]);
        if toks.len() == 1 {
            lemma_split_from_word(toks[0], e, acc, e);
            assert(toks[0] + e == toks[0]);
            assert(acc.push(toks[0]) == acc + toks);
        } else {
            let rest = join_spaces(toks.drop_first());
            assert(toks[0] + seq![' '] + rest == toks[0] + (seq![' '] + rest));
            lemma_split_from_word(toks[0], seq![' '] + rest, acc, e);
            assert((seq![' '] + rest).drop_first() == rest);
            assert(all_tokens(toks.drop_first()));
            lemma_split_join(toks.drop_first(), acc.push(toks[0]));
            assert(acc.push(toks[0]) + toks.drop_first() == acc + toks);
        }
    }
}

/// Splitting on whitespace yields tokens only (non-empty, free of whitespace),
/// and joining them with single spaces and splitting again gives them back.
pub proof fn lemma_split_whitespace_resplit(s: Seq<char>)
    ensures
        all_tokens(split_whitespace(s)),
        split_whitespace(join_spaces(split_whitespace(s))) == split_whitespace(s),
{
    let toks = split_whitespace(s);
    lemma_split_from_tokens(s, Seq::empty(), Seq::empty());
    lemma_split_join(toks, Seq::empty());
    assert(Seq::<Seq<char>>::empty() + toks == toks);
}

proof fn lemma_trim_start_skips(w: Seq<char>, x: Seq<char>)
    requires
        all_whitespace(w),
    ensures
        trim_start(w + x) == trim_start(x),
    decreases w.len(),
{
    if w.len() == 0 {
        assert(w + x == x);
    } else {
        assert((w + x)[0] == w[0]);
        assert((w + x).drop_first() == w.drop_first() + x);
        lemma_trim_start_skips(w.drop_first(), x);
    }
}

proof fn lemma_trim_end_skips(x: Seq<char>, w: Seq<char>)
    requires
        all_whitespace(w),
    ensures
        trim_end(x + w) == trim_end(x),
    decreases w.len(),
{
    if w.len() == 0 {
        assert(x + w == x);
    } else {
        assert((x + w).last() == w.last());
        assert((x + w).drop_last() == x + w.drop_last());
        lemma_trim_end_skips(x, w.drop_last());
    }
}

proof fn lemma_trim_start_before(s: Seq<char>, w: Seq<char>)
    requires
        all_whitespace(w),
    ensures
        trim_start(s + w) == if trim_start(s).len() == 0 {
            Seq::<char>::empty()
        } else {
            trim_start(s) + w
        },
    decreases s.len(),
{
    if s.len() == 0 {
        assert(s + w == w);
        lemma_trim_start_skips(w, Seq::empty());
        assert(w + Seq::<char>::empty() == w);
        assert(s + w == s + w);
        assert(trim_start(s) == s);
        assert(s == Seq::<char>::empty());
    } else {
        assert((s + w)[0] == s[0]);
        if is_whitespace(s[0]) {
            assert((s + w).drop_first() == s.drop_first() + w);
            lemma_trim_start_before(s.drop_first(), w);
        }
    }
}

/// Whitespace around a text does not change what trimming leaves.
pub proof fn lemma_trim_surrounded(w1: Seq<char>, s: Seq<char>, w2: Seq<char>)
    requires
        all_whitespace(w1),
        all_whitespace(w2),
    ensures
        trim(w1 + s + w2) == trim(s),
{
    assert(w1 + s + w2 == w1 + (s + w2));
    lemma_trim_start_skips(w1, s + w2);
    lemma_trim_start_before(s, w2);
    if trim_start(s).len() > 0 {
        lemma_trim_end_skips(trim_start(s), w2);
    }
}

} // verus!

verus! {

proof fn lemma_trim_start_shape(s: Seq<char>)
    ensures
        trim_start(s).len() == 0 || !is_whitespace(trim_start(s)[0]),
    decreases s.len(),
{
    if s.len() > 0 && is_whitespace(s[0]) {
        lemma_trim_start_shape(s.drop_first());
    }
}

proof fn lemma_trim_end_shape(s: Seq<char>)
    ensures
        trim_end(s).len() <= s.len(),
        trim_end(s) == s.take(trim_end(s).len() as int),
        trim_end(s).len() == 0 || !is_whitespace(trim_end(s).last()),
    decreases s.len(),
{
    if s.len() > 0 && is_whitespace(s.last()) {
        lemma_trim_end_shape(s.drop_last());
        assert(s.drop_last().take(trim_end(s).len() as int) == s.take(trim_end(s).len() as int));
    } else {
        assert(s.take(s.len() as int) == s);
    }
}

/// Trimming twice leaves what trimming once does.
pub proof fn lemma_trim_idempotent(s: Seq<char>)
    ensures
        trim(trim(s)) == trim(s),
{
    let a = trim_start(s);
    let b = trim_end(a);
    lemma_trim_start_shape(s);
    lemma_trim_end_shape(a);
    if b.len() > 0 {
        assert(b[0] == a[0]);
        assert(trim_start(b) == b);
    } else {
        assert(trim_start(b) == b);
    }
    assert(trim_end(b) == b);
}

} // verus!
