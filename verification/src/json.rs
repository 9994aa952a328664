//! JSON documents held as plain values. Parsing and printing are done by
//! `serde_json`; reading fields out of a document is verified here.

use vstd::prelude::*;

use serde_json::Value;

verus! {

#[verifier::external_type_specification]
#[verifier::external_body]
pub struct ExJsonValue(Value);

/// A JSON document. A number keeps the text `serde_json` prints for it.
#[derive(Debug, PartialEq, Eq)]
pub enum JsonValue {
    Null,
    Bool(bool),
    Number(String),
    Str(String),
    Array(Vec<JsonValue>),
    /// Members in the order `serde_json` keeps them (sorted by key).
    Object(Vec<(String, JsonValue)>),
}

/// What `serde_json::from_str::<Value>` makes of a text, when it accepts it.
pub uninterp spec fn json_parse(text: Seq<char>) -> Option<JsonValue>;

/// The compact text `serde_json` prints for a document.
pub uninterp spec fn json_render(v: JsonValue) -> Seq<char>;

/// The indented JSON text of a document.
pub uninterp spec fn json_render_pretty(v: JsonValue) -> Seq<char>;

/// The value of the first member named `key` among `entries`.
pub open spec fn member(entries: Seq<(String, JsonValue)>, key: Seq<char>) -> Option<JsonValue>
    decreases entries.len(),
{
    if entries.len() == 0 {
        None
    } else if entries[0].0@ == key {
        Some(entries[0].1)
    } else {
        member(entries.drop_first(), key)
    }
}

/// The member found is the first one with the key.
pub proof fn lemma_member_at(entries: Seq<(String, JsonValue)>, key: Seq<char>, k: int)
    requires
        0 <= k < entries.len(),
        entries[k].0@ == key,
        forall|j: int| 0 <= j < k ==> (#[trigger] entries[j]).0@ != key,
    ensures
        member(entries, key) == Some(entries[k].1),
    decreases k,
{
    if k > 0 {
        assert forall|j: int| 0 <= j < k - 1 implies (#[trigger] entries.drop_first()[j]).0@ != key by {
            assert(entries.drop_first()[j] == entries[j + 1]);
        }
        lemma_member_at(entries.drop_first(), key, k - 1);
    }
}

/// The value of member `key` of an object (the first such member), if any.
pub open spec fn json_field(v: JsonValue, key: Seq<char>) -> Option<JsonValue> {
    match v {
        JsonValue::Object(entries) => member(entries@, key),
        _ => None,
    }
}

/// The text of a string value.
pub open spec fn json_str(v: JsonValue) -> Option<Seq<char>> {
    match v {
        JsonValue::Str(s) => Some(s@),
        _ => None,
    }
}

/// An object with no members.
pub open spec fn is_empty_object(v: JsonValue) -> bool {
    v matches JsonValue::Object(e) && e@.len() == 0
}

pub open spec fn is_digit_char(c: char) -> bool {
    '0' <= c && c <= '9'
}

/// The value of a run of decimal digits.
pub open spec fn digits_value(s: Seq<char>) -> int
    decreases s.len(),
{
    if s.len() == 0 {
        0
    } else {
        digits_value(s.drop_last()) * 10 + (s.last() as int - '0' as int)
    }
}

pub open spec fn all_digits(s: Seq<char>) -> bool {
    s.len() > 0 && forall|i: int| 0 <= i < s.len() ==> is_digit_char(#[trigger] s[i])
}

/// The integer a number's text stands for: an optional minus sign and
/// decimal digits (a fraction or an exponent is no integer).
pub open spec fn int_text_value(t: Seq<char>) -> Option<int> {
    if all_digits(t) {
        Some(digits_value(t))
    } else if t.len() > 1 && t[0] == '-' && all_digits(t.drop_first()) {
        Some(-digits_value(t.drop_first()))
    } else {
        None
    }
}

/// A number that is an integer within `i64`.
pub open spec fn json_i64(v: JsonValue) -> Option<i64> {
    match v {
        JsonValue::Number(t) => match int_text_value(t@) {
            Some(n) => if i64::MIN <= n <= i64::MAX {
                Some(n as i64)
            } else {
                None
            },
            None => None,
        },
        _ => None,
    }
}

pub proof fn lemma_digits_value_grows(s: Seq<char>, k: int)
    requires
        0 <= k <= s.len(),
        forall|i: int| 0 <= i < s.len() ==> is_digit_char(#[trigger] s[i]),
    ensures
        0 <= digits_value(s.take(k)) <= digits_value(s),
    decreases s.len() - k,
{
    if k < s.len() {
        lemma_digits_value_grows(s, k + 1);
        assert(s.take(k + 1).drop_last() =~= s.take(k));
        lemma_digits_value_nonneg(s.take(k));
    } else {
        assert(s.take(k) =~= s);
        lemma_digits_value_nonneg(s);
    }
}

pub proof fn lemma_digits_value_nonneg(s: Seq<char>)
    requires
        forall|i: int| 0 <= i < s.len() ==> is_digit_char(#[trigger] s[i]),
    ensures
        digits_value(s) >= 0,
    decreases s.len(),
{
    if s.len() > 0 {
        lemma_digits_value_nonneg(s.drop_last());
    }
}

/// The value of the digits `v[lo..]`, when they are all digits and the
/// value is at most `u64::MAX`.
fn digits_at(v: &Vec<char>, lo: usize) -> (r: Option<u64>)
    requires
        lo <= v@.len(),
    ensures
        match r {
            Some(n) => all_digits(v@.skip(lo as int)) && n == digits_value(v@.skip(lo as int)),
            None => !all_digits(v@.skip(lo as int)) || digits_value(v@.skip(lo as int)) > u64::MAX,
        },
{
    let ghost s = v@.skip(lo as int);
    if lo == v.len() {
        return None;
    }
    let mut acc: u64 = 0;
    let mut i = lo;
    while i < v.len()
        invariant
            lo <= i <= v@.len(),
            s == v@.skip(lo as int),
            forall|j: int| 0 <= j < i - lo ==> is_digit_char(#[trigger] s[j]),
            acc == digits_value(s.take(i - lo)),
        decreases v@.len() - i,
    {
        let c = v[i];
        if !('0' <= c && c <= '9') {
            assert(s[i - lo] == c);
            return None;
        }
        let d = (c as u32 - '0' as u32) as u64;
        assert(s.take(i - lo + 1).drop_last() =~= s.take(i - lo));
        assert(s.take(i - lo + 1).last() == c);
        let next = match acc.checked_mul(10) {
            Some(m) => m.checked_add(d),
            None => None,
        };
        match next {
            Some(n) => {
                acc = n;
            },
            None => {
                proof {
                    assert(forall|j: int| 0 <= j < i - lo + 1 ==> is_digit_char(#[trigger] s[j]));
                    if all_digits(s) {
                        lemma_digits_value_grows(s, i - lo + 1);
                    }
                }
                return None;
            },
        }
        i = i + 1;
    }
    assert(s.take(i - lo) =~= s);
    Some(acc)
}

/// A stored document, or `{}` when the text is not JSON.
pub open spec fn is_json_or_empty(v: JsonValue, text: Seq<char>) -> bool {
    match json_parse(text) {
        Some(d) => v == d,
        None => is_empty_object(v),
    }
}

/// A nullable column holding a JSON document: `Some(None)` for NULL,
/// `Some(Some(doc))` for readable JSON, `None` for text that is not JSON.
pub open spec fn stored_doc(col: Option<Seq<char>>) -> Option<Option<JsonValue>> {
    match col {
        Some(raw) => match json_parse(raw) {
            Some(v) => Some(Some(v)),
            None => None,
        },
        None => Some(None),
    }
}

pub open spec fn is_json_text(text: Seq<char>) -> bool {
    json_parse(text) is Some
}

#[verifier::external_body]
fn from_serde(v: Value) -> JsonValue {
    match v {
        Value::Null => JsonValue::Null,
        Value::Bool(b) => JsonValue::Bool(b),
        Value::Number(n) => JsonValue::Number(n.to_string()),
        Value::String(s) => JsonValue::Str(s),
        Value::Array(a) => JsonValue::Array(a.into_iter().map(from_serde).collect()),
        Value::Object(m) => JsonValue::Object(m.into_iter().map(|(k, x)| (k, from_serde(x))).collect()),
    }
}

#[verifier::external_body]
fn to_serde(v: &JsonValue) -> Value {
    match v {
        JsonValue::Null => Value::Null,
        JsonValue::Bool(b) => Value::Bool(*b),
        JsonValue::Number(n) => serde_json::from_str::<Value>(n).unwrap_or(Value::Null),
        JsonValue::Str(s) => Value::String(s.clone()),
        JsonValue::Array(a) => Value::Array(a.iter().map(to_serde).collect()),
        JsonValue::Object(m) => Value::Object(m.iter().map(|(k, x)| (k.clone(), to_serde(x))).collect()),
    }
}

/// `serde_json::from_str::<Value>`: parses a JSON text. The result is a
/// function of the text alone, named `json_parse`.
#[verifier::external_body]
pub(crate) fn parse_json(text: &str) -> (r: Option<JsonValue>)
    ensures
        r == json_parse(text@),
{
    serde_json::from_str::<Value>(text).ok().map(from_serde)
}

/// `Display` of `serde_json::Value` (compact JSON text). The text is a
/// function of the document alone, named `json_render`.
#[verifier::external_body]
pub(crate) fn render_json(v: &JsonValue) -> (r: String)
    ensures
        r@ == json_render(*v),
{
    to_serde(v).to_string()
}

/// `serde_json::to_string_pretty` of a document (two-space indented
/// JSON text). The text is a function of the document alone, named
/// `json_render_pretty`.
#[verifier::external_body]
pub(crate) fn render_json_pretty(v: &JsonValue) -> (r: String)
    ensures
        r@ == json_render_pretty(*v),
{
    serde_json::to_string_pretty(&to_serde(v)).unwrap_or_default()
}

/// Whether the text is a JSON document.
pub fn is_json(text: &str) -> (r: bool)
    ensures
        r == is_json_text(text@),
{
    parse_json(text).is_some()
}

pub open spec fn digit_char(d: int) -> char {
    ((d + 48) as u8) as char
}

/// The decimal digits of a natural number, most significant first.
pub open spec fn dec(m: nat) -> Seq<char>
    decreases m,
{
    if m < 10 {
        seq![digit_char(m as int)]
    } else {
        dec(m / 10).push(digit_char((m % 10) as int))
    }
}

/// The decimal text of an integer (a minus sign for negatives).
pub open spec fn decimal(n: int) -> Seq<char> {
    if n < 0 {
        seq!['-'] + dec((-n) as nat)
    } else {
        dec(n as nat)
    }
}

pub proof fn lemma_digit_char(d: int)
    requires
        0 <= d < 10,
    ensures
        digit_char(d) as int == d + 48,
        is_digit_char(digit_char(d)),
{
    let u: u8 = (d + 48) as u8;
    assert(u as int == d + 48);
    assert((u as char) as int == u as int);
}

pub proof fn lemma_dec(m: nat)
    ensures
        all_digits(dec(m)),
        digits_value(dec(m)) == m,
    decreases m,
{
    lemma_digit_char((m % 10) as int);
    if m < 10 {
        let d = dec(m);
        assert(d == seq![digit_char(m as int)]);
        assert(d.drop_last() =~= Seq::<char>::empty());
        assert(m % 10 == m);
        assert(d.last() as int - '0' as int == m);
        assert(digits_value(d.drop_last()) == 0);
        assert(digits_value(d) == m);
        assert(is_digit_char(d[0]));
    }
    if m >= 10 {
        lemma_dec(m / 10);
        let d = dec(m / 10).push(digit_char((m % 10) as int));
        assert(dec(m) == d);
        assert(d.drop_last() =~= dec(m / 10));
        assert(d.last() as int - '0' as int == m % 10);
        assert(digits_value(d) == digits_value(dec(m / 10)) * 10 + (m % 10));
        assert(m == (m / 10) * 10 + m % 10) by (nonlinear_arith);
        assert(digits_value(dec(m / 10)) == m / 10);
        assert(digits_value(d) == m);
        assert forall|i: int| 0 <= i < d.len() implies is_digit_char(#[trigger] d[i]) by {
            if i < d.len() - 1 {
                assert(d[i] == dec(m / 10)[i]);
            }
        }
    }
}

pub proof fn lemma_decimal_value(n: int)
    ensures
        int_text_value(decimal(n)) == Some(n),
{
    if n < 0 {
        lemma_dec((-n) as nat);
        assert((seq!['-'] + dec((-n) as nat)).drop_first() =~= dec((-n) as nat));
        assert(!is_digit_char(decimal(n)[0]));
    } else {
        lemma_dec(n as nat);
    }
}

fn push_dec(m: u64, out: &mut Vec<char>)
    ensures
        final(out)@ == old(out)@ + dec(m as nat),
    decreases m,
{
    if m >= 10 {
        push_dec(m / 10, out);
    }
    let d = (m % 10) as u8;
    out.push((48u8 + d) as char);
    proof {
        if m >= 10 {
            assert(old(out)@ + dec(m as nat) =~= old(out)@ + dec((m / 10) as nat) + seq![digit_char((m % 10) as int)]);
        } else {
            assert(old(out)@ + dec(m as nat) =~= old(out)@ + seq![digit_char((m % 10) as int)]);
        }
    }
}

/// The decimal text of an integer (a minus sign for negatives).
pub fn number_text(n: i64) -> (r: String)
    ensures
        r@ == decimal(n as int),
        int_text_value(r@) == Some(n as int),
{
    proof {
        lemma_decimal_value(n as int);
    }
    let mut out: Vec<char> = Vec::new();
    if n < 0 {
        out.push('-');
        let m: u64 = if n == i64::MIN {
            9223372036854775808u64
        } else {
            (-n) as u64
        };
        push_dec(m, &mut out);
        assert(out@ =~= decimal(n as int));
    } else {
        push_dec(n as u64, &mut out);
        assert(out@ =~= decimal(n as int));
    }
    crate::chars::string_of(out.as_slice())
}

/// A stored document, or `{}` when the stored text is not JSON.
pub fn json_or_empty_object(text: &str) -> (r: JsonValue)
    ensures
        is_json_or_empty(r, text@),
{
    match parse_json(text) {
        Some(v) => v,
        None => JsonValue::Object(Vec::new()),
    }
}

impl JsonValue {
    /// Member `key` of an object; `None` for a missing member or a
    /// value that is not an object.
    pub fn get(&self, key: &str) -> (r: Option<&JsonValue>)
        ensures
            match r {
                Some(x) => json_field(*self, key@) == Some(*x),
                None => json_field(*self, key@) is None,
            },
    {
        match self {
            JsonValue::Object(entries) => {
                let mut i: usize = 0;
                assert(entries@.subrange(0, entries@.len() as int) =~= entries@);
                while i < entries.len()
                    invariant
                        i <= entries@.len(),
                        json_field(*self, key@) == member(entries@, key@),
                        member(entries@, key@) == member(entries@.subrange(i as int, entries@.len() as int), key@),
                    decreases entries@.len() - i,
                {
                    let ghost rest = entries@.subrange(i as int, entries@.len() as int);
                    assert(rest[0] == entries@[i as int]);
                    if crate::domain::str_eq(entries[i].0.as_str(), key) {
                        return Some(&entries[i].1);
                    }
                    assert(rest.drop_first() =~= entries@.subrange(i + 1, entries@.len() as int));
                    i = i + 1;
                }
                None
            },
            _ => None,
        }
    }

    /// The text of a string value.
    pub fn as_str(&self) -> (r: Option<&str>)
        ensures
            match r {
                Some(s) => json_str(*self) == Some(s@),
                None => json_str(*self) is None,
            },
    {
        match self {
            JsonValue::Str(s) => Some(s.as_str()),
            _ => None,
        }
    }

    /// The number as an `i64`, when it is an integer that fits.
    pub fn as_i64(&self) -> (r: Option<i64>)
        ensures
            r == json_i64(*self),
    {
        match self {
            JsonValue::Number(t) => {
                let v = crate::chars::chars_of(t.as_str());
                if v.len() > 1 && v[0] == '-' {
                    assert(v@.skip(1) =~= v@.drop_first());
                    proof {
                        if all_digits(v@) {
                            assert(is_digit_char(v@[0]));
                        }
                    }
                    match digits_at(&v, 1) {
                        Some(n) => {
                            if n <= 9223372036854775808u64 {
                                if n == 9223372036854775808u64 {
                                    Some(i64::MIN)
                                } else {
                                    Some(-(n as i64))
                                }
                            } else {
                                None
                            }
                        },
                        None => None,
                    }
                } else {
                    assert(v@.skip(0) =~= v@);
                    match digits_at(&v, 0) {
                        Some(n) => {
                            if n <= 9223372036854775807u64 {
                                Some(n as i64)
                            } else {
                                None
                            }
                        },
                        None => {
                            proof {
                                if v@.len() > 1 && v@[0] == '-' {
                                } else if v@.len() > 1 {
                                    assert(!(v@[0] == '-'));
                                }
                            }
                            None
                        },
                    }
                }
            },
            _ => None,
        }
    }

    /// The items of an array.
    pub fn as_array(&self) -> (r: Option<&Vec<JsonValue>>)
        ensures
            match r {
                Some(a) => *self == JsonValue::Array(*a),
                None => !(*self is Array),
            },
    {
        match self {
            JsonValue::Array(a) => Some(a),
            _ => None,
        }
    }

    /// Member `key` of an object, taken out of the document.
    pub fn take_member(self, key: &str) -> (r: Option<JsonValue>)
        ensures
            r == json_field(self, key@),
    {
        match self {
            JsonValue::Object(entries) => {
                let mut entries = entries;
                let ghost orig = entries@;
                let mut i: usize = 0;
                assert(entries@.subrange(0, entries@.len() as int) =~= entries@);
                while i < entries.len()
                    invariant
                        i <= entries@.len(),
                        entries@ == orig,
                        json_field(self, key@) == member(orig, key@),
                        member(orig, key@) == member(orig.subrange(i as int, orig.len() as int), key@),
                    decreases entries@.len() - i,
                {
                    let ghost rest = orig.subrange(i as int, orig.len() as int);
                    assert(rest[0] == orig[i as int]);
                    if crate::domain::str_eq(entries[i].0.as_str(), key) {
                        let (_, v) = entries.remove(i);
                        return Some(v);
                    }
                    assert(rest.drop_first() =~= orig.subrange(i + 1, orig.len() as int));
                    i = i + 1;
                }
                None
            },
            _ => None,
        }
    }

    /// An object with no members.
    pub fn empty_object() -> (r: JsonValue)
        ensures
            is_empty_object(r),
    {
        JsonValue::Object(Vec::new())
    }
}

} // verus!
