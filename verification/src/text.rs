//! Text helpers shared by the suggestion, search and memory features.

use vstd::prelude::*;

use crate::chars::{
    chars_of, collapse_ws, lemma_trim_idempotent, lemma_trim_len, squeeze, squeeze_range, string_of, trim, trim_bounds,
};

verus! {

/// Opening mark of the `k`-th wrapper pair: 《》「」“”‘’ "" ''.
pub open spec fn wrap_open(k: int) -> char {
    if k == 0 {
        '《'
    } else if k == 1 {
        '「'
    } else if k == 2 {
        '\u{201c}'
    } else if k == 3 {
        '\u{2018}'
    } else if k == 4 {
        '"'
    } else {
        '\''
    }
}

/// Closing mark of the `k`-th wrapper pair.
pub open spec fn wrap_close(k: int) -> char {
    if k == 0 {
        '》'
    } else if k == 1 {
        '」'
    } else if k == 2 {
        '\u{201d}'
    } else if k == 3 {
        '\u{2019}'
    } else if k == 4 {
        '"'
    } else {
        '\''
    }
}

/// Strip the `k`-th wrapper pair when it encloses non-empty content.
pub open spec fn try_unwrap(s: Seq<char>, k: int) -> Seq<char> {
    if s.len() >= 3 && s[0] == wrap_open(k) && s.last() == wrap_close(k) {
        trim(s.subrange(1, s.len() - 1))
    } else {
        s
    }
}

/// One sweep over the wrapper pairs, in order, starting at pair `k`.
pub open spec fn unwrap_sweep(s: Seq<char>, k: int) -> Seq<char>
    decreases 6 - k,
{
    if k >= 6 {
        s
    } else {
        unwrap_sweep(try_unwrap(s, k), k + 1)
    }
}

/// Sweeps repeated until one of them changes nothing.
pub open spec fn unwrap_all(s: Seq<char>) -> Seq<char>
    decreases s.len(),
{
    let t = unwrap_sweep(s, 0);
    if t.len() < s.len() {
        unwrap_all(t)
    } else {
        s
    }
}

/// The normalized form of a title used to match model output back to
/// real candidates.
pub open spec fn title_match_key(s: Seq<char>) -> Seq<char> {
    collapse_ws(unwrap_all(trim(s)))
}

proof fn lemma_sweep_shrinks(s: Seq<char>, k: int)
    requires
        0 <= k <= 6,
    ensures
        unwrap_sweep(s, k).len() <= s.len(),
        unwrap_sweep(s, k).len() == s.len() ==> unwrap_sweep(s, k) == s,
    decreases 6 - k,
{
    if k < 6 {
        let t = try_unwrap(s, k);
        if s.len() >= 3 && s[0] == wrap_open(k) && s.last() == wrap_close(k) {
            lemma_trim_len(s.subrange(1, s.len() - 1));
        }
        lemma_sweep_shrinks(t, k + 1);
    }
}

proof fn lemma_unwrap_keeps_trimmed(s: Seq<char>)
    requires
        trim(s) == s,
    ensures
        trim(unwrap_all(s)) == unwrap_all(s),
    decreases s.len(),
{
    lemma_sweep_keeps_trimmed(s, 0);
    lemma_sweep_shrinks(s, 0);
    let t = unwrap_sweep(s, 0);
    if t.len() < s.len() {
        lemma_unwrap_keeps_trimmed(t);
    }
}

proof fn lemma_sweep_keeps_trimmed(s: Seq<char>, k: int)
    requires
        trim(s) == s,
        0 <= k <= 6,
    ensures
        trim(unwrap_sweep(s, k)) == unwrap_sweep(s, k),
    decreases 6 - k,
{
    if k < 6 {
        let t = try_unwrap(s, k);
        if s.len() >= 3 && s[0] == wrap_open(k) && s.last() == wrap_close(k) {
            lemma_trim_idempotent(s.subrange(1, s.len() - 1));
        }
        lemma_sweep_keeps_trimmed(t, k + 1);
    }
}

fn wrap_pair(k: usize) -> (r: (char, char))
    requires
        k < 6,
    ensures
        r.0 == wrap_open(k as int),
        r.1 == wrap_close(k as int),
{
    if k == 0 {
        ('《', '》')
    } else if k == 1 {
        ('「', '」')
    } else if k == 2 {
        ('\u{201c}', '\u{201d}')
    } else if k == 3 {
        ('\u{2018}', '\u{2019}')
    } else if k == 4 {
        ('"', '"')
    } else {
        ('\'', '\'')
    }
}

/// Normalize a title for exact back-matching: wrapper punctuation
/// (《》「」“”‘’ and straight quotes) around non-empty content is peeled
/// repeatedly, then whitespace is trimmed and collapsed.
pub fn normalize_title_for_match(value: &str) -> (r: String)
    ensures
        r@ == title_match_key(value@),
{
    let v = chars_of(value);
    let n = v.len();
    let (mut lo, mut hi) = trim_bounds(&v, 0, n);
    proof {
        assert(v@.subrange(0, n as int) =~= v@);
    }
    let ghost start = v@.subrange(lo as int, hi as int);
    loop
        invariant
            lo <= hi <= n == v@.len(),
            unwrap_all(start) == unwrap_all(v@.subrange(lo as int, hi as int)),
        ensures
            lo <= hi <= n == v@.len(),
            unwrap_all(start) == v@.subrange(lo as int, hi as int),
        decreases hi - lo,
    {
        let ghost before = v@.subrange(lo as int, hi as int);
        let mut changed = false;
        let mut k: usize = 0;
        while k < 6
            invariant
                lo <= hi <= n == v@.len(),
                k <= 6,
                unwrap_sweep(before, 0) == unwrap_sweep(v@.subrange(lo as int, hi as int), k as int),
                changed ==> v@.subrange(lo as int, hi as int).len() < before.len(),
                !changed ==> v@.subrange(lo as int, hi as int) == before,
                v@.subrange(lo as int, hi as int).len() <= before.len(),
            decreases 6 - k,
        {
            let (open, close) = wrap_pair(k);
            let ghost cur = v@.subrange(lo as int, hi as int);
            if hi - lo >= 3 && v[lo] == open && v[hi - 1] == close {
                proof {
                    assert(cur.subrange(1, cur.len() - 1) =~= v@.subrange(lo + 1, hi - 1));
                }
                let (a, b) = trim_bounds(&v, lo + 1, hi - 1);
                lo = a;
                hi = b;
                changed = true;
            }
            k = k + 1;
        }
        proof {
            lemma_sweep_shrinks(before, 0);
            let cur = v@.subrange(lo as int, hi as int);
            assert(unwrap_sweep(cur, 6) == cur);
            assert(unwrap_sweep(before, 0) == cur);
        }
        if !changed {
            break ;
        }
    }
    proof {
        lemma_trim_idempotent(v@);
        lemma_unwrap_keeps_trimmed(start);
    }
    let out = squeeze_range(&v, lo, hi);
    string_of(out.as_slice())
}

/// `parts` joined with `sep` between them.
pub open spec fn joined(parts: Seq<Seq<char>>, sep: Seq<char>) -> Seq<char>
    decreases parts.len(),
{
    if parts.len() == 0 {
        Seq::empty()
    } else if parts.len() == 1 {
        parts[0]
    } else {
        joined(parts.drop_last(), sep) + sep + parts.last()
    }
}

} // verus!
