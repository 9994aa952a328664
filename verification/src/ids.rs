//! Entity identifiers: 128-bit values stored as hyphenated lowercase hex
//! text (`xxxxxxxx-xxxx-xxxx-xxxx-xxxxxxxxxxxx`), the storage format of
//! every id column.

use vstd::prelude::*;

verus! {

/// Identifier of any stored entity.
pub type EntityId = u128;

/// Positions of the four hyphens in the text form.
pub open spec fn is_hyphen_pos(p: int) -> bool {
    p == 8 || p == 13 || p == 18 || p == 23
}

/// Number of hex digits before text position `p`.
pub open spec fn digit_index(p: int) -> int {
    if p < 8 {
        p
    } else if p < 13 {
        p - 1
    } else if p < 18 {
        p - 2
    } else if p < 23 {
        p - 3
    } else {
        p - 4
    }
}

/// The `q`-th hex digit (most significant first) of `x`.
pub open spec fn nibble(x: u128, q: int) -> u128 {
    (x >> ((124 - 4 * q) as u128)) & 15
}

pub open spec fn hex_char(d: u128) -> char {
    if d < 10 {
        ((d + 48) as u8) as char
    } else {
        ((d + 87) as u8) as char
    }
}

/// Value of a hex digit character (either case), if it is one.
pub open spec fn hex_value(c: char) -> Option<u128> {
    if '0' <= c && c <= '9' {
        Some(((c as u128) - 48) as u128)
    } else if 'a' <= c && c <= 'f' {
        Some(((c as u128) - 87) as u128)
    } else if 'A' <= c && c <= 'F' {
        Some(((c as u128) - 55) as u128)
    } else {
        None
    }
}

/// The text form of an id.
pub open spec fn id_text(x: u128) -> Seq<char> {
    Seq::new(
        36,
        |p: int|
            if is_hyphen_pos(p) {
                '-'
            } else {
                hex_char(nibble(x, digit_index(p)))
            },
    )
}

/// Whether `s` has the shape of an id's text form.
pub open spec fn is_id_text(s: Seq<char>) -> bool {
    &&& s.len() == 36
    &&& forall|p: int|
        0 <= p < 36 ==> if is_hyphen_pos(p) {
            s[p] == '-'
        } else {
            (#[trigger] hex_value(s[p])) is Some
        }
}

/// Value accumulated from the first `k` hex digits of `s`.
pub open spec fn digits_value(s: Seq<char>, k: int) -> u128
    decreases k,
{
    if k <= 0 {
        0
    } else {
        let p = text_pos(k - 1);
        ((digits_value(s, k - 1) << 4u128) | hex_value(s[p]).unwrap())
    }
}

/// Text position of the `q`-th hex digit.
pub open spec fn text_pos(q: int) -> int {
    if q < 8 {
        q
    } else if q < 12 {
        q + 1
    } else if q < 16 {
        q + 2
    } else if q < 20 {
        q + 3
    } else {
        q + 4
    }
}

/// The id denoted by a text, when it has the id shape.
pub open spec fn id_of_text(s: Seq<char>) -> Option<u128> {
    if is_id_text(s) {
        Some(digits_value(s, 32))
    } else {
        None
    }
}

fn hex_digit_char(d: u8) -> (c: char)
    requires
        d < 16,
    ensures
        c == hex_char(d as u128),
        hex_value(c) == Some(d as u128),
{
    if d < 10 {
        (d + 48) as char
    } else {
        (d + 87) as char
    }
}

fn hex_digit_value(c: char) -> (r: Option<u8>)
    ensures
        r is Some <==> hex_value(c) is Some,
        r matches Some(d) ==> d as u128 == hex_value(c).unwrap() && d < 16,
{
    if '0' <= c && c <= '9' {
        Some(((c as u32) - 48) as u8)
    } else if 'a' <= c && c <= 'f' {
        Some(((c as u32) - 87) as u8)
    } else if 'A' <= c && c <= 'F' {
        Some(((c as u32) - 55) as u8)
    } else {
        None
    }
}

/// Hyphenated lowercase hex text of an id.
pub fn format_id(x: EntityId) -> (r: String)
    ensures
        r@ == id_text(x),
{
    let mut out: Vec<char> = Vec::new();
    let mut p: usize = 0;
    let mut q: usize = 0;
    while p < 36
        invariant
            p <= 36,
            q as int == if p <= 8 {
                p as int
            } else if p <= 13 {
                p - 1
            } else if p <= 18 {
                p - 2
            } else if p <= 23 {
                p - 3
            } else {
                p - 4
            },
            out@.len() == p,
            forall|i: int| 0 <= i < p ==> out@[i] == #[trigger] id_text(x)[i],
        decreases 36 - p,
    {
        if p == 8 || p == 13 || p == 18 || p == 23 {
            out.push('-');
        } else {
            let shift: u128 = 124 - 4 * (q as u128);
            assert(((x >> shift) & 15) < 16) by (bit_vector);
            let d = ((x >> shift) & 15) as u8;
            let c = hex_digit_char(d);
            out.push(c);
            q = q + 1;
        }
        p = p + 1;
    }
    proof {
        assert(out@ =~= id_text(x));
    }
    crate::chars::string_of(out.as_slice())
}

/// Parse the text form of an id.
pub fn parse_id(s: &str) -> (r: Option<EntityId>)
    ensures
        r == id_of_text(s@),
{
    let v = crate::chars::chars_of(s);
    if v.len() != 36 {
        return None;
    }
    let mut p: usize = 0;
    while p < 36
        invariant
            p <= 36,
            v@ == s@,
            v@.len() == 36,
            forall|i: int|
                0 <= i < p ==> if is_hyphen_pos(i) {
                    v@[i] == '-'
                } else {
                    (#[trigger] hex_value(v@[i])) is Some
                },
        decreases 36 - p,
    {
        if p == 8 || p == 13 || p == 18 || p == 23 {
            if v[p] != '-' {
                return None;
            }
        } else {
            if hex_digit_value(v[p]).is_none() {
                proof {
                    assert(hex_value(v@[p as int]) is None);
                    assert(!is_hyphen_pos(p as int));
                }
                return None;
            }
        }
        p = p + 1;
    }
    let mut acc: u128 = 0;
    let mut q: usize = 0;
    while q < 32
        invariant
            q <= 32,
            v@ == s@,
            is_id_text(v@),
            acc == digits_value(v@, q as int),
        decreases 32 - q,
    {
        let pos = if q < 8 {
            q
        } else if q < 12 {
            q + 1
        } else if q < 16 {
            q + 2
        } else if q < 20 {
            q + 3
        } else {
            q + 4
        };
        proof {
            assert(!is_hyphen_pos(pos as int));
            assert(hex_value(v@[pos as int]) is Some);
        }
        let d = hex_digit_value(v[pos]).unwrap();
        acc = (acc << 4u128) | (d as u128);
        q = q + 1;
    }
    Some(acc)
}

proof fn lemma_digits_prefix(x: u128, k: int)
    requires
        0 <= k <= 32,
    ensures
        digits_value(id_text(x), k) == if k == 0 {
            0u128
        } else {
            x >> ((128 - 4 * k) as u128)
        },
    decreases k,
{
    if k > 0 {
        lemma_digits_prefix(x, k - 1);
        let p = text_pos(k - 1);
        assert(!is_hyphen_pos(p) && digit_index(p) == k - 1);
        let d = nibble(x, k - 1);
        let s: u128 = (124 - 4 * (k - 1)) as u128;
        assert(d < 16) by (bit_vector)
            requires
                d == (x >> s) & 15,
        ;
        assert(id_text(x)[p] == hex_char(d));
        assert(hex_value(hex_char(d)) == Some(d)) by {
            if d < 10 {
                assert(((d + 48) as u8) as char as u128 == d + 48);
            } else {
                assert(((d + 87) as u8) as char as u128 == d + 87);
            }
        }
        if k == 1 {
            assert(((0u128 << 4u128) | ((x >> s) & 15)) == x >> s) by (bit_vector)
                requires
                    s == 124,
            ;
        } else {
            let s2: u128 = (128 - 4 * (k - 1)) as u128;
            assert((((x >> s2) << 4u128) | ((x >> s) & 15)) == x >> s) by (bit_vector)
                requires
                    s2 == s + 4,
                    s2 <= 124,
            ;
        }
    }
}

/// Formatting then parsing gives back the same id.
pub proof fn lemma_id_text_roundtrip(x: u128)
    ensures
        id_of_text(id_text(x)) == Some(x),
{
    let t = id_text(x);
    assert forall|p: int| 0 <= p < 36 implies if is_hyphen_pos(p) {
        t[p] == '-'
    } else {
        (#[trigger] hex_value(t[p])) is Some
    } by {
        if !is_hyphen_pos(p) {
            let d = nibble(x, digit_index(p));
            let sh = (124 - 4 * digit_index(p)) as u128;
            assert(d < 16) by (bit_vector)
                requires
                    d == (x >> sh) & 15,
            ;
            if d < 10 {
                assert(((d + 48) as u8) as char as u128 == d + 48);
            } else {
                assert(((d + 87) as u8) as char as u128 == d + 87);
            }
        }
    }
    lemma_digits_prefix(x, 32);
    assert((x >> 0u128) == x) by (bit_vector);
}

} // verus!
