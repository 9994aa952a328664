//! Retrieval fragments of a text: CJK character pairs, single CJK
//! characters and ASCII words, used to look up related content.

use vstd::prelude::*;

use crate::ai_model::{cjk, is_cjk};
use crate::chars::{chars_of, string_of};
use crate::dates::{lemma_text_lt_asymmetric, lemma_text_lt_total, str_lt, text_lt};

verus! {

pub open spec fn char_texts(v: Seq<Vec<char>>) -> Seq<Seq<char>> {
    v.map_values(|x: Vec<char>| x@)
}

pub open spec fn texts_of(v: Seq<String>) -> Seq<Seq<char>> {
    v.map_values(|x: String| x@)
}

pub open spec fn ascii_alnum(c: char) -> bool {
    ('a' <= c && c <= 'z') || ('A' <= c && c <= 'Z') || ('0' <= c && c <= '9')
}

/// Scanning state after a prefix: the fragments found so far and the
/// ASCII word being read.
pub open spec fn scan(s: Seq<char>) -> (Seq<Seq<char>>, Seq<char>)
    decreases s.len(),
{
    if s.len() == 0 {
        (Seq::empty(), Seq::empty())
    } else {
        let (done, word) = scan(s.drop_last());
        let c = s.last();
        if ascii_alnum(c) {
            (done, word.push(c))
        } else {
            let flushed = if word.len() >= 2 {
                done.push(word)
            } else {
                done
            };
            if cjk(c) {
                (flushed.push(seq![c]), Seq::empty())
            } else {
                (flushed, Seq::empty())
            }
        }
    }
}

/// The ASCII words of at least two characters and the single CJK
/// characters, in order.
pub open spec fn word_fragments(s: Seq<char>) -> Seq<Seq<char>> {
    let (done, word) = scan(s);
    if word.len() >= 2 {
        done.push(word)
    } else {
        done
    }
}

/// Each two consecutive characters of `c`.
pub open spec fn pairs(c: Seq<char>) -> Seq<Seq<char>>
    decreases c.len(),
{
    if c.len() < 2 {
        Seq::empty()
    } else {
        pairs(c.drop_last()).push(seq![c[c.len() - 2], c.last()])
    }
}

/// The CJK characters of `s`, in order.
pub open spec fn cjk_chars(s: Seq<char>) -> Seq<char> {
    s.filter(|c: char| cjk(c))
}

/// All fragments of a text: the pairs of consecutive CJK characters (the
/// characters between them skipped), then the word fragments.
pub open spec fn all_fragments(s: Seq<char>) -> Seq<Seq<char>> {
    pairs(cjk_chars(s)) + word_fragments(s)
}

/// Texts in strictly ascending order.
pub open spec fn ascending(v: Seq<Seq<char>>) -> bool {
    forall|i: int| 0 <= i < v.len() - 1 ==> text_lt(#[trigger] v[i], v[i + 1])
}

fn text_eq(a: &Vec<char>, b: &Vec<char>) -> (r: bool)
    ensures
        r == (a@ == b@),
{
    if a.len() != b.len() {
        return false;
    }
    let mut i: usize = 0;
    while i < a.len()
        invariant
            a@.len() == b@.len(),
            i <= a@.len(),
            forall|k: int| 0 <= k < i ==> a@[k] == b@[k],
        decreases a@.len() - i,
    {
        if a[i] != b[i] {
            return false;
        }
        i = i + 1;
    }
    assert(a@ =~= b@);
    true
}

fn chars_lt(a: &Vec<char>, b: &Vec<char>) -> (r: bool)
    ensures
        r == text_lt(a@, b@),
{
    let x = string_of(a.as_slice());
    let y = string_of(b.as_slice());
    str_lt(x.as_str(), y.as_str())
}

/// Adds `x` to a strictly ascending list unless it is there.
fn insert_sorted(out: &mut Vec<Vec<char>>, x: Vec<char>)
    requires
        ascending(char_texts(old(out)@)),
    ensures
        ascending(char_texts(final(out)@)),
        forall|t: Seq<char>| #[trigger] char_texts(final(out)@).contains(t) <==> (
        char_texts(old(out)@).contains(t) || t == x@),
{
    let ghost before = char_texts(out@);
    let mut p: usize = 0;
    while p < out.len() && chars_lt(&out[p], &x)
        invariant
            p <= out@.len(),
            before == char_texts(out@),
            before == char_texts(old(out)@),
            forall|k: int| 0 <= k < p ==> text_lt(#[trigger] before[k], x@),
        decreases out@.len() - p,
    {
        p = p + 1;
    }
    if p < out.len() && text_eq(&out[p], &x) {
        assert(before[p as int] == x@);
        return;
    }
    proof {
        if p < before.len() {
            lemma_text_lt_total(before[p as int], x@);
        }
    }
    let ghost xv = x@;
    out.insert(p, x);
    let ghost after = char_texts(out@);
    assert(after =~= before.insert(p as int, xv));
    proof {
        assert forall|i: int| 0 <= i < after.len() - 1 implies text_lt(#[trigger] after[i], after[i + 1]) by {
            if i + 1 < p {
                assert(after[i] == before[i] && after[i + 1] == before[i + 1]);
            } else if i + 1 == p {
                assert(after[i] == before[i]);
            } else if i == p {
                assert(after[i + 1] == before[i]);
            } else {
                assert(after[i] == before[i - 1] && after[i + 1] == before[i]);
                let j = i - 1;
                assert(before[j + 1] == before[i]);
                assert(text_lt(before[j], before[j + 1]));
            }
        }
        assert forall|t: Seq<char>| #[trigger] after.contains(t) <==> (before.contains(t) || t == xv) by {
            if after.contains(t) {
                let k = choose|k: int| 0 <= k < after.len() && after[k] == t;
                if k < p {
                    assert(before[k] == t);
                } else if k > p {
                    assert(before[k - 1] == t);
                }
            }
            if before.contains(t) {
                let k = choose|k: int| 0 <= k < before.len() && before[k] == t;
                if k < p {
                    assert(after[k] == t);
                } else {
                    assert(after[k + 1] == t);
                }
            }
            if t == xv {
                assert(after[p as int] == t);
            }
        }
    }
}

/// The fragments of `v` (see `all_fragments`), in order of appearance.
fn collect_fragments(v: &Vec<char>) -> (r: Vec<Vec<char>>)
    ensures
        char_texts(r@) == all_fragments(v@),
{
    let mut cjk_seen: Vec<char> = Vec::new();
    let mut out_pairs: Vec<Vec<char>> = Vec::new();
    let mut done: Vec<Vec<char>> = Vec::new();
    let mut word: Vec<char> = Vec::new();
    let mut i: usize = 0;
    assert(v@.take(0) =~= Seq::<char>::empty());
    assert(cjk_chars(Seq::<char>::empty()) =~= Seq::<char>::empty());
    while i < v.len()
        invariant
            i <= v@.len(),
            cjk_seen@ == cjk_chars(v@.take(i as int)),
            char_texts(out_pairs@) == pairs(cjk_seen@),
            char_texts(done@) == scan(v@.take(i as int)).0,
            word@ == scan(v@.take(i as int)).1,
        decreases v@.len() - i,
    {
        let c = v[i];
        let ghost pre = v@.take(i as int);
        assert(v@.take(i + 1).drop_last() =~= pre);
        assert(v@.take(i + 1).last() == c);
        assert(v@.take(i + 1) =~= pre.push(c));
        proof {
            pre.lemma_filter_push(c, |x: char| cjk(x));
        }
        let ascii = ('a' <= c && c <= 'z') || ('A' <= c && c <= 'Z') || ('0' <= c && c <= '9');
        if ascii {
            word.push(c);
        } else {
            if word.len() >= 2 {
                let w = word;
                let ghost before = char_texts(done@);
                done.push(w);
                assert(char_texts(done@) =~= before.push(scan(pre).1));
            }
            word = Vec::new();
            if is_cjk(c) {
                let ghost before = char_texts(done@);
                let mut one: Vec<char> = Vec::new();
                one.push(c);
                assert(one@ =~= seq![c]);
                done.push(one);
                assert(char_texts(done@) =~= before.push(seq![c]));
            }
        }
        if is_cjk(c) {
            let ghost before_pairs = char_texts(out_pairs@);
            let ghost seen = cjk_seen@;
            if cjk_seen.len() >= 1 {
                let mut pair: Vec<char> = Vec::new();
                pair.push(cjk_seen[cjk_seen.len() - 1]);
                pair.push(c);
                out_pairs.push(pair);
                let ghost grown = seen.push(c);
                assert(grown.drop_last() =~= seen);
                assert(pair@ =~= seq![grown[grown.len() - 2], grown.last()]);
                assert(char_texts(out_pairs@) =~= before_pairs.push(pair@));
            } else {
                assert(seen.push(c).len() < 2);
                assert(pairs(seen) =~= Seq::<Seq<char>>::empty());
            }
            cjk_seen.push(c);
        }
        i = i + 1;
    }
    assert(v@.take(i as int) =~= v@);
    let mut out = out_pairs;
    let ghost p = char_texts(out@);
    let mut k: usize = 0;
    let ghost wf = word_fragments(v@);
    let mut tail: Vec<Vec<char>> = done;
    if word.len() >= 2 {
        let ghost before = char_texts(tail@);
        tail.push(word);
        assert(char_texts(tail@) =~= before.push(scan(v@).1));
    }
    assert(char_texts(tail@) == wf);
    while k < tail.len()
        invariant
            k <= tail@.len(),
            char_texts(tail@) == wf,
            char_texts(out@) =~= p + wf.take(k as int),
        decreases tail@.len() - k,
    {
        let ghost before = char_texts(out@);
        out.push(tail[k].clone());
        assert(wf.take(k + 1) =~= wf.take(k as int).push(wf[k as int]));
        assert(char_texts(out@) =~= before.push(wf[k as int]));
        k = k + 1;
    }
    assert(wf.take(k as int) =~= wf);
    out
}

/// The retrieval fragments of a text, each once, in ascending order.
pub fn bigrams(text: &str) -> (r: Vec<String>)
    ensures
        ascending(texts_of(r@)),
        forall|t: Seq<char>| #[trigger] texts_of(r@).contains(t) <==> all_fragments(
            text@,
        ).contains(t),
{
    let v = chars_of(text);
    let frags = collect_fragments(&v);
    let ghost fs = char_texts(frags@);
    let mut sorted: Vec<Vec<char>> = Vec::new();
    let mut i: usize = 0;
    while i < frags.len()
        invariant
            i <= frags@.len(),
            fs == char_texts(frags@),
            ascending(char_texts(sorted@)),
            forall|t: Seq<char>| #[trigger] char_texts(sorted@).contains(t) <==> fs.take(i as int).contains(t),
        decreases frags@.len() - i,
    {
        let ghost before = char_texts(sorted@);
        insert_sorted(&mut sorted, frags[i].clone());
        proof {
            assert(fs.take(i + 1) =~= fs.take(i as int).push(fs[i as int]));
            assert forall|t: Seq<char>| #[trigger] fs.take(i + 1).contains(t) <==> (fs.take(i as int).contains(t) || t == fs[i as int]) by {
                let q = fs.take(i as int);
                if fs.take(i + 1).contains(t) {
                    let k = choose|k: int| 0 <= k < i + 1 && #[trigger] fs.take(i + 1)[k] == t;
                    if k < i {
                        assert(q[k] == t);
                    }
                }
                if q.contains(t) {
                    let k = choose|k: int| 0 <= k < q.len() && #[trigger] q[k] == t;
                    assert(fs.take(i + 1)[k] == t);
                }
                if t == fs[i as int] {
                    assert(fs.take(i + 1)[i as int] == t);
                }
            }
        }
        i = i + 1;
    }
    assert(fs.take(i as int) =~= fs);
    let mut out: Vec<String> = Vec::new();
    let mut k: usize = 0;
    while k < sorted.len()
        invariant
            k <= sorted@.len(),
            texts_of(out@) =~= char_texts(sorted@).take(k as int),
        decreases sorted@.len() - k,
    {
        let ghost before = texts_of(out@);
        let t = string_of(sorted[k].as_slice());
        out.push(t);
        assert(texts_of(out@) =~= before.push(sorted@[k as int]@));
        k = k + 1;
    }
    assert(char_texts(sorted@).take(k as int) =~= char_texts(sorted@));
    out
}

/// The first `n` characters of a text.
pub fn first_chars(s: &str, n: usize) -> (r: String)
    ensures
        r@ == (if s@.len() <= n { s@ } else { s@.take(n as int) }),
{
    let v = chars_of(s);
    let mut out: Vec<char> = Vec::new();
    let mut i: usize = 0;
    while i < v.len() && i < n
        invariant
            i <= v@.len(),
            i <= n,
            v@ == s@,
            out@ =~= v@.take(i as int),
        decreases v@.len() - i,
    {
        out.push(v[i]);
        i = i + 1;
    }
    if v.len() <= n {
        assert(v@.take(i as int) =~= v@);
    }
    string_of(out.as_slice())
}

} // verus!
