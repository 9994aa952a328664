//! The text rules behind memories: `[[wiki links]]` in a body, the word
//! sets two memories are compared by, and how related memories are scored
//! and ranked.

use vstd::prelude::*;

use crate::chars::{chars_of, string_of, trim, trim_bounds};

verus! {

/// The first `]]` at or after `k`, or -1.
pub open spec fn close_from(s: Seq<char>, k: int) -> int
    decreases s.len() - k,
{
    if k < 0 || k + 1 >= s.len() {
        -1
    } else if s[k] == ']' && s[k + 1] == ']' {
        k
    } else {
        close_from(s, k + 1)
    }
}

pub proof fn lemma_close_from(s: Seq<char>, k: int)
    requires
        0 <= k,
    ensures
        close_from(s, k) == -1 || (k <= close_from(s, k) && close_from(s, k) + 1 < s.len()),
    decreases s.len() - k,
{
    if k + 1 < s.len() && !(s[k] == ']' && s[k + 1] == ']') {
        lemma_close_from(s, k + 1);
    }
}

/// The titles of the `[[...]]` links in `s` from position `k` on: the text
/// between `[[` and the next `]]`, trimmed; empty links are skipped.
pub open spec fn wikilinks_from(s: Seq<char>, k: int) -> Seq<Seq<char>>
    decreases s.len() - k,
{
    if k < 0 || k + 1 >= s.len() {
        Seq::empty()
    } else if s[k] == '[' && s[k + 1] == '[' {
        let j = close_from(s, k + 2);
        if j < 0 {
            Seq::empty()
        } else {
            proof {
                lemma_close_from(s, k + 2);
            }
            let t = trim(s.subrange(k + 2, j));
            let rest = wikilinks_from(s, j + 2);
            if t.len() > 0 {
                seq![t] + rest
            } else {
                rest
            }
        }
    } else {
        wikilinks_from(s, k + 1)
    }
}

pub open spec fn wikilink_titles(s: Seq<char>) -> Seq<Seq<char>> {
    wikilinks_from(s, 0)
}

fn find_close(v: &Vec<char>, k: usize) -> (r: Option<usize>)
    ensures
        match r {
            Some(j) => close_from(v@, k as int) == j as int,
            None => close_from(v@, k as int) == -1,
        },
{
    let mut i = k;
    while i < v.len() && v.len() - i > 1
        invariant
            k <= i,
            close_from(v@, k as int) == close_from(v@, i as int),
        decreases v@.len() - i,
    {
        if v[i] == ']' && v[i + 1] == ']' {
            return Some(i);
        }
        i = i + 1;
    }
    None
}

/// The titles of the wiki links in a body, in order.
pub fn parse_wikilink_titles(body: &str) -> (r: Vec<String>)
    ensures
        r@.map_values(|t: String| t@) == wikilink_titles(body@),
{
    let v = chars_of(body);
    let mut out: Vec<String> = Vec::new();
    let mut k: usize = 0;
    while k < v.len() && v.len() - k > 1
        invariant
            v@ == body@,
            out@.map_values(|t: String| t@) + wikilinks_from(v@, k as int) == wikilink_titles(v@),
        decreases v@.len() - k,
    {
        if v[k] == '[' && v[k + 1] == '[' {
            match find_close(&v, k + 2) {
                None => {
                    assert(wikilinks_from(v@, k as int) =~= Seq::<Seq<char>>::empty());
                    assert(out@.map_values(|t: String| t@) + Seq::<Seq<char>>::empty() =~= out@.map_values(|t: String| t@));
                    return out;
                },
                Some(j) => {
                    proof {
                        lemma_close_from(v@, k + 2);
                    }
                    let (a, b) = trim_bounds(&v, k + 2, j);
                    let mut w: Vec<char> = Vec::new();
                    let mut i = a;
                    while i < b
                        invariant
                            a <= i <= b <= v@.len(),
                            w@ =~= v@.subrange(a as int, i as int),
                        decreases b - i,
                    {
                        w.push(v[i]);
                        i = i + 1;
                    }
                    let ghost before = out@.map_values(|t: String| t@);
                    if a < b {
                        let t = string_of(w.as_slice());
                        out.push(t);
                        assert(out@.map_values(|t: String| t@) =~= before.push(w@));
                        assert(seq![w@] + wikilinks_from(v@, j + 2) =~= wikilinks_from(v@, k as int));
                        assert(before.push(w@) + wikilinks_from(v@, j + 2) =~= before + (seq![w@] + wikilinks_from(v@, j + 2)));
                    }
                    k = j + 2;
                },
            }
        } else {
            k = k + 1;
        }
    }
    assert(wikilinks_from(v@, k as int) =~= Seq::<Seq<char>>::empty());
    assert(out@.map_values(|t: String| t@) + Seq::<Seq<char>>::empty() =~= out@.map_values(|t: String| t@));
    out
}

// ---------------------------------------------------------------------
// Word sets

/// What `str::to_lowercase` makes of a text (Unicode lowercasing).
pub uninterp spec fn lower_text(s: Seq<char>) -> Seq<char>;

/// What `char::is_alphanumeric` says of a character (Unicode tables).
pub uninterp spec fn alnum(c: char) -> bool;

/// `str::to_lowercase`. The result depends on the text alone and is named
/// `lower_text`.
#[verifier::external_body]
pub(crate) fn to_lower(s: &str) -> (r: String)
    ensures
        r@ == lower_text(s@),
{
    s.to_lowercase()
}

/// `char::is_alphanumeric`, named `alnum`.
#[verifier::external_body]
pub(crate) fn is_alnum(c: char) -> (r: bool)
    ensures
        r == alnum(c),
{
    c.is_alphanumeric()
}

/// Words are runs of alphanumeric characters and underscores.
pub open spec fn is_sep(c: char) -> bool {
    !alnum(c) && c != '_'
}

/// The pieces of `s` between separators (empty pieces included).
pub open spec fn pieces(s: Seq<char>) -> Seq<Seq<char>>
    decreases s.len(),
{
    if s.len() == 0 {
        seq![Seq::empty()]
    } else {
        let p = pieces(s.drop_last());
        if is_sep(s.last()) {
            p.push(Seq::empty())
        } else {
            p.update(p.len() - 1, p.last().push(s.last()))
        }
    }
}

pub proof fn lemma_pieces_nonempty(s: Seq<char>)
    ensures
        pieces(s).len() >= 1,
    decreases s.len(),
{
    if s.len() > 0 {
        lemma_pieces_nonempty(s.drop_last());
    }
}

/// The UTF-8 length of one character.
pub open spec fn utf8_width(c: char) -> int {
    let u = c as u32;
    if u < 0x80 {
        1
    } else if u < 0x800 {
        2
    } else if u < 0x10000 {
        3
    } else {
        4
    }
}

pub open spec fn utf8_len(s: Seq<char>) -> int
    decreases s.len(),
{
    if s.len() == 0 {
        0
    } else {
        utf8_len(s.drop_last()) + utf8_width(s.last())
    }
}

/// Each item once, first occurrences kept in order.
pub open spec fn dedup(s: Seq<Seq<char>>) -> Seq<Seq<char>>
    decreases s.len(),
{
    if s.len() == 0 {
        Seq::empty()
    } else {
        let d = dedup(s.drop_last());
        if d.contains(s.last()) {
            d
        } else {
            d.push(s.last())
        }
    }
}

/// The pieces that are words: at least three bytes long.
pub open spec fn long_pieces(p: Seq<Seq<char>>) -> Seq<Seq<char>>
    decreases p.len(),
{
    if p.len() == 0 {
        Seq::empty()
    } else {
        let rest = long_pieces(p.drop_last());
        if utf8_len(p.last()) >= 3 {
            rest.push(p.last())
        } else {
            rest
        }
    }
}

/// The distinct words of a lowercased text, in order of first occurrence.
pub open spec fn word_list(lowered: Seq<char>) -> Seq<Seq<char>> {
    dedup(long_pieces(pieces(lowered)))
}

/// The words of a text: lowercased, split at characters that are neither
/// alphanumeric nor `_`, pieces shorter than three bytes dropped.
pub open spec fn tokens(s: Seq<char>) -> Seq<Seq<char>> {
    word_list(lower_text(s))
}

fn utf8_width_of(c: char) -> (r: usize)
    ensures
        r == utf8_width(c),
{
    let u = c as u32;
    if u < 0x80 {
        1
    } else if u < 0x800 {
        2
    } else if u < 0x10000 {
        3
    } else {
        4
    }
}

fn contains_word(ws: &Vec<Vec<char>>, w: &Vec<char>) -> (r: bool)
    ensures
        r == ws@.map_values(|x: Vec<char>| x@).contains(w@),
{
    let ghost m = ws@.map_values(|x: Vec<char>| x@);
    let mut i: usize = 0;
    while i < ws.len()
        invariant
            i <= ws@.len(),
            m == ws@.map_values(|x: Vec<char>| x@),
            forall|j: int| 0 <= j < i ==> m[j] != w@,
        decreases ws@.len() - i,
    {
        let x = &ws[i];
        let mut same = x.len() == w.len();
        if same {
            let mut q: usize = 0;
            while q < x.len()
                invariant
                    x@.len() == w@.len(),
                    q <= x@.len(),
                    same == (forall|z: int| 0 <= z < q ==> x@[z] == w@[z]),
                decreases x@.len() - q,
            {
                if x[q] != w[q] {
                    same = false;
                }
                q = q + 1;
            }
            if same {
                assert(x@ =~= w@);
                assert(m[i as int] == w@);
                return true;
            }
        }
        assert(m[i as int] == x@);
        i = i + 1;
    }
    false
}

/// Appends a finished piece to the word list when it is a new word.
fn keep_word(out: &mut Vec<Vec<char>>, cur: Vec<char>, cur_bytes: usize, Ghost(done): Ghost<Seq<Seq<char>>>)
    requires
        old(out)@.map_values(|x: Vec<char>| x@) == dedup(long_pieces(done.drop_last())),
        done.len() >= 1,
        done.last() == cur@,
        cur_bytes == (if utf8_len(cur@) >= 3 { 3 } else { utf8_len(cur@) }),
    ensures
        final(out)@.map_values(|x: Vec<char>| x@) == dedup(long_pieces(done)),
{
    let ghost lp = long_pieces(done.drop_last());
    assert(done.drop_last().push(done.last()) =~= done);
    if cur_bytes >= 3 {
        assert(long_pieces(done) == lp.push(cur@));
        let present = contains_word(out, &cur);
        let ghost before = out@.map_values(|x: Vec<char>| x@);
        assert(lp.push(cur@).drop_last() =~= lp);
        if !present {
            out.push(cur);
            assert(out@.map_values(|x: Vec<char>| x@) =~= before.push(cur@));
        }
    } else {
        assert(long_pieces(done) == lp);
    }
}

/// The distinct words of an already lowercased text.
pub fn words_of_lowered(v: &Vec<char>) -> (r: Vec<Vec<char>>)
    ensures
        r@.map_values(|x: Vec<char>| x@) == word_list(v@),
{
    let mut out: Vec<Vec<char>> = Vec::new();
    let mut cur: Vec<char> = Vec::new();
    let mut cur_bytes: usize = 0;
    let mut i: usize = 0;
    assert(v@.take(0) =~= Seq::<char>::empty());
    while i < v.len()
        invariant
            i <= v@.len(),
            pieces(v@.take(i as int)).len() >= 1,
            cur@ == pieces(v@.take(i as int)).last(),
            cur_bytes == (if utf8_len(cur@) >= 3 { 3 } else { utf8_len(cur@) }),
            out@.map_values(|x: Vec<char>| x@) == dedup(long_pieces(pieces(v@.take(i as int)).drop_last())),
        decreases v@.len() - i,
    {
        let c = v[i];
        let ghost p = pieces(v@.take(i as int));
        assert(v@.take(i + 1).drop_last() =~= v@.take(i as int));
        assert(v@.take(i + 1).last() == c);
        let sep = !is_alnum(c) && c != '_';
        if sep {
            let finished = cur;
            keep_word(&mut out, finished, cur_bytes, Ghost(p));
            cur = Vec::new();
            cur_bytes = 0;
            assert(pieces(v@.take(i + 1)) == p.push(Seq::<char>::empty()));
            assert(p.push(Seq::<char>::empty()).drop_last() =~= p);
        } else {
            let ghost old_cur = cur@;
            cur.push(c);
            let w = utf8_width_of(c);
            cur_bytes = if cur_bytes + w >= 3 { 3 } else { cur_bytes + w };
            assert(cur@.drop_last() =~= old_cur);
            let ghost q = p.update(p.len() - 1, p.last().push(c));
            assert(pieces(v@.take(i + 1)) == q);
            assert(q.drop_last() =~= p.drop_last());
        }
        i = i + 1;
    }
    assert(v@.take(i as int) =~= v@);
    let ghost p = pieces(v@);
    keep_word(&mut out, cur, cur_bytes, Ghost(p));
    out
}

/// The distinct words of a text (see `tokens`).
pub fn tokenize(text: &str) -> (r: Vec<Vec<char>>)
    ensures
        r@.map_values(|x: Vec<char>| x@) == tokens(text@),
{
    let lowered = to_lower(text);
    let v = chars_of(lowered.as_str());
    words_of_lowered(&v)
}

/// How many items of `a` occur in `b`.
pub open spec fn shared_count(a: Seq<Seq<char>>, b: Seq<Seq<char>>) -> nat
    decreases a.len(),
{
    if a.len() == 0 {
        0
    } else {
        shared_count(a.drop_last(), b) + if b.contains(a.last()) {
            1nat
        } else {
            0nat
        }
    }
}

/// The overlap of two word lists: `(shared, union)` counts.
pub fn overlap(a: &Vec<Vec<char>>, b: &Vec<Vec<char>>) -> (r: (u64, u64))
    requires
        a@.len() + b@.len() <= u64::MAX,
    ensures
        r.0 == shared_count(
            a@.map_values(|x: Vec<char>| x@),
            b@.map_values(|x: Vec<char>| x@),
        ),
        r.1 == a@.len() + b@.len() - r.0,
{
    let ghost am = a@.map_values(|x: Vec<char>| x@);
    let ghost bm = b@.map_values(|x: Vec<char>| x@);
    let mut n: u64 = 0;
    let mut i: usize = 0;
    while i < a.len()
        invariant
            i <= a@.len(),
            a@.len() + b@.len() <= u64::MAX,
            am == a@.map_values(|x: Vec<char>| x@),
            bm == b@.map_values(|x: Vec<char>| x@),
            n == shared_count(am.take(i as int), bm),
            n <= i,
        decreases a@.len() - i,
    {
        assert(am.take(i + 1).drop_last() =~= am.take(i as int));
        assert(am.take(i + 1).last() == a@[i as int]@);
        if contains_word(b, &a[i]) {
            n = n + 1;
        }
        i = i + 1;
    }
    assert(am.take(i as int) =~= am);
    (n, (a.len() as u64) + (b.len() as u64) - n)
}

// ---------------------------------------------------------------------
// Scoring of related memories

/// A score `num / den`, compared exactly.
pub struct Score {
    pub num: u64,
    pub den: u64,
}

/// Whether the keyword overlap counts: a Jaccard index of at least 0.2.
pub open spec fn keywords_count(shared: int, union: int) -> bool {
    union > 0 && 5 * shared >= union
}

/// The score of a candidate: 0.35 per shared tag, 0.25 when already
/// linked otherwise, and half the Jaccard index of the word sets when that
/// index is at least 0.2.
pub open spec fn score_num(tags: int, linked: bool, shared: int, union: int) -> int {
    if keywords_count(shared, union) {
        (7 * tags + if linked { 5int } else { 0int }) * union + 10 * shared
    } else {
        7 * tags + if linked { 5int } else { 0int }
    }
}

pub open spec fn score_den(shared: int, union: int) -> int {
    if keywords_count(shared, union) {
        20 * union
    } else {
        20
    }
}

/// Counts past the exact range are brought into it first: more than
/// 0xFFFF shared tags count as 0xFFFF, and word counts whose union reaches
/// 2^28 are both divided by the same divisor, which keeps their ratio
/// (shared words never count for more than the union).
pub open spec fn tag_clamp(tags: int) -> int {
    if tags < 0x1_0000 {
        tags
    } else {
        0xFFFF
    }
}

pub open spec fn word_scale(union: int) -> int {
    if union < 0x1000_0000 {
        1
    } else {
        union / 0x800_0000 + 1
    }
}

/// The score of a candidate with `tags` shared tags, linked or not, and
/// `shared` words of a `union`, as a fraction.
pub open spec fn score_of(tags: int, linked: bool, shared: int, union: int) -> Score {
    let q = word_scale(union);
    let s = if shared <= union { shared } else { union };
    Score {
        num: score_num(tag_clamp(tags), linked, s / q, union / q) as u64,
        den: score_den(s / q, union / q) as u64,
    }
}

proof fn lemma_scaled_words(shared: int, union: int)
    requires
        0 <= shared <= union,
    ensures
        0 <= shared / word_scale(union) <= union / word_scale(union) < 0x1000_0000,
        score_den(shared / word_scale(union), union / word_scale(union)) > 0,
{
    let q = word_scale(union);
    vstd::arithmetic::div_mod::lemma_div_is_ordered(shared, union, q);
    vstd::arithmetic::div_mod::lemma_div_is_ordered(0, shared, q);
    if union >= 0x1000_0000 {
        let d = union / 0x800_0000;
        vstd::arithmetic::div_mod::lemma_fundamental_div_mod(union, 0x800_0000);
        vstd::arithmetic::div_mod::lemma_fundamental_div_mod(union, q);
        assert(union < q * 0x800_0000) by (nonlinear_arith)
            requires
                union == 0x800_0000 * d + union % 0x800_0000,
                union % 0x800_0000 < 0x800_0000,
                q == d + 1,
        ;
        assert(union / q < 0x800_0000) by (nonlinear_arith)
            requires
                union == q * (union / q) + union % q,
                union % q >= 0,
                union < q * 0x800_0000,
                q > 0,
        ;
    }
}

pub fn related_score(tags: u64, linked: bool, shared: u64, union: u64) -> (r: Score)
    ensures
        r == score_of(tags as int, linked, shared as int, union as int),
        r.den > 0,
{
    let shared = if shared <= union { shared } else { union };
    proof {
        lemma_scaled_words(shared as int, union as int);
    }
    let t: u64 = if tags < 0x1_0000 { tags } else { 0xFFFF };
    let (sh, un) = if union < 0x1000_0000 {
        (shared, union)
    } else {
        let q = union / 0x800_0000 + 1;
        (shared / q, union / q)
    };
    let base: u64 = 7 * t + if linked { 5 } else { 0 };
    if un > 0 && 5 * sh >= un {
        assert(base * un <= 0x1_0000_0000 * 0x1000_0000) by (nonlinear_arith)
            requires
                base <= 0x1_0000_0000,
                un < 0x1000_0000,
        ;
        Score { num: base * un + 10 * sh, den: 20 * un }
    } else {
        Score { num: base, den: 20 }
    }
}

/// A score of at least 0.25.
pub open spec fn passes(s: Score) -> bool {
    4 * s.num >= s.den
}

/// `a` scores at least as high as `b`.
pub open spec fn score_ge(a: Score, b: Score) -> bool {
    a.num * b.den >= b.num * a.den
}

/// Scoring at least as high carries over through a middle score.
pub proof fn lemma_score_ge_trans(a: Score, b: Score, c: Score)
    requires
        score_ge(a, b),
        score_ge(b, c),
        b.den > 0,
    ensures
        score_ge(a, c),
{
    let (an, ad, bn, bd, cn, cd) = (a.num as int, a.den as int, b.num as int, b.den as int, c.num as int, c.den as int);
    assert(an * bd * cd >= bn * ad * cd) by (nonlinear_arith)
        requires
            an * bd >= bn * ad,
            cd >= 0,
    ;
    assert(bn * cd * ad >= cn * bd * ad) by (nonlinear_arith)
        requires
            bn * cd >= cn * bd,
            ad >= 0,
    ;
    assert(an * cd >= cn * ad) by (nonlinear_arith)
        requires
            an * bd * cd >= bn * ad * cd,
            bn * cd * ad >= cn * bd * ad,
            bd > 0,
    ;
}

pub fn score_at_least(a: &Score, b: &Score) -> (r: bool)
    ensures
        r == score_ge(*a, *b),
{
    assert((a.num as u128) * (b.den as u128) <= 0xffff_ffff_ffff_ffff * 0xffff_ffff_ffff_ffff) by (nonlinear_arith)
        requires
            a.num <= 0xffff_ffff_ffff_ffff,
            b.den <= 0xffff_ffff_ffff_ffff,
    ;
    assert((b.num as u128) * (a.den as u128) <= 0xffff_ffff_ffff_ffff * 0xffff_ffff_ffff_ffff) by (nonlinear_arith)
        requires
            b.num <= 0xffff_ffff_ffff_ffff,
            a.den <= 0xffff_ffff_ffff_ffff,
    ;
    let x = (a.num as u128) * (b.den as u128);
    let y = (b.num as u128) * (a.den as u128);
    x >= y
}

pub fn passes_threshold(s: &Score) -> (r: bool)
    ensures
        r == passes(*s),
{
    4 * (s.num as u128) >= (s.den as u128)
}

} // verus!
