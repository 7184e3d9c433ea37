//! The versioned value envelope `{ "v": <n>, "value": "<string>" }` and the
//! percent-encoding of key components: a JSON string writer and the matching
//! fixed-shape reader, both stated over characters, with the round trip proved.

use vstd::prelude::*;
use vstd::string::StringSliceAdditionalSpecFns;

use crate::text::{
    chars_of, is_ws, push_char, string_of, trim_bounds, trim_spec, trim_start_spec, decimal_spec,
    decimal_string, push_str, char_is_ws, trim_end_spec, digit_char,
};

verus! {

/// The envelope schema version this build reads and writes.
pub const SCHEMA_VERSION: u32 = 1;

// ---------------------------------------------------------------- writing ---

/// The lowercase hex digit for `d < 16`.
pub open spec fn hex_lower(d: nat) -> char {
    if d < 10 { ((d + 48) as u32) as char } else { ((d - 10 + 97) as u32) as char }
}

/// The uppercase hex digit for `d < 16`.
pub open spec fn hex_upper(d: nat) -> char {
    if d < 10 { ((d + 48) as u32) as char } else { ((d - 10 + 65) as u32) as char }
}

/// How one character is written inside a JSON string literal.
pub open spec fn json_escape_char(c: char) -> Seq<char> {
    if c == '"' {
        seq!['\\', '"']
    } else if c == '\\' {
        seq!['\\', '\\']
    } else if c == '\n' {
        seq!['\\', 'n']
    } else if c == '\r' {
        seq!['\\', 'r']
    } else if c == '\t' {
        seq!['\\', 't']
    } else if (c as u32) < 0x20 {
        seq!['\\', 'u', '0', '0', hex_lower((c as u32 / 16) as nat), hex_lower((c as u32 % 16) as nat)]
    } else {
        seq![c]
    }
}

/// The escaped body of a JSON string literal for `s` (without the quotes).
pub open spec fn json_escape(s: Seq<char>) -> Seq<char>
    decreases s.len(),
{
    if s.len() == 0 {
        Seq::empty()
    } else {
        json_escape_char(s[0]) + json_escape(s.drop_first())
    }
}

/// The quoted JSON string literal for `s`.
pub open spec fn json_string_spec(s: Seq<char>) -> Seq<char> {
    seq!['"'] + json_escape(s) + seq!['"']
}

/// The envelope written for `value`.
pub open spec fn envelope_spec(value: Seq<char>) -> Seq<char> {
    seq!['{', '"', 'v', '"', ':'] + decimal_spec(SCHEMA_VERSION as nat) + seq![
        ',',
        '"',
        'v',
        'a',
        'l',
        'u',
        'e',
        '"',
        ':',
    ] + json_string_spec(value) + seq!['}']
}

proof fn lemma_json_escape_append(a: Seq<char>, c: char)
    ensures
        json_escape(a.push(c)) == json_escape(a) + json_escape_char(c),
    decreases a.len(),
{
    if a.len() == 0 {
        let t = a.push(c);
        assert(t.drop_first() =~= Seq::<char>::empty());
        assert(json_escape(t.drop_first()) == Seq::<char>::empty());
        assert(t[0] == c);
        assert(json_escape(t) =~= json_escape_char(c) + Seq::<char>::empty());
        assert(json_escape(a) == Seq::<char>::empty());
        assert(json_escape(t) =~= json_escape(a) + json_escape_char(c));
    } else {
        assert(a.push(c).drop_first() =~= a.drop_first().push(c));
        lemma_json_escape_append(a.drop_first(), c);
        assert(json_escape(a.push(c)) =~= json_escape(a) + json_escape_char(c));
    }
}

fn push_hex_lower(out: &mut String, d: u32)
    requires
        d < 16,
    ensures
        final(out)@ == old(out)@.push(hex_lower(d as nat)),
{
    let c = if d < 10 { ((d + 48) as u8) as char } else { ((d - 10 + 97) as u8) as char };
    push_char(out, c);
}

/// JSON-escape `s` into a quoted string literal.
pub fn json_string(s: &str) -> (r: String)
    ensures
        r@ == json_string_spec(s@),
{
    let v = chars_of(s);
    let mut out = String::new();
    push_char(&mut out, '"');
    let mut i: usize = 0;
    while i < v.len()
        invariant
            i <= v.len(),
            out@ == seq!['"'] + json_escape(v@.take(i as int)),
        decreases v.len() - i,
    {
        let c = v[i];
        let ghost before = out@;
        if c == '"' {
            push_char(&mut out, '\\');
            push_char(&mut out, '"');
        } else if c == '\\' {
            push_char(&mut out, '\\');
            push_char(&mut out, '\\');
        } else if c == '\n' {
            push_char(&mut out, '\\');
            push_char(&mut out, 'n');
        } else if c == '\r' {
            push_char(&mut out, '\\');
            push_char(&mut out, 'r');
        } else if c == '\t' {
            push_char(&mut out, '\\');
            push_char(&mut out, 't');
        } else if (c as u32) < 0x20 {
            push_char(&mut out, '\\');
            push_char(&mut out, 'u');
            push_char(&mut out, '0');
            push_char(&mut out, '0');
            push_hex_lower(&mut out, c as u32 / 16);
            push_hex_lower(&mut out, c as u32 % 16);
        } else {
            push_char(&mut out, c);
        }
        proof {
            assert(out@ =~= before + json_escape_char(c));
            assert(v@.take(i + 1) =~= v@.take(i as int).push(c));
            lemma_json_escape_append(v@.take(i as int), c);
        }
        i = i + 1;
    }
    push_char(&mut out, '"');
    proof {
        assert(v@.take(v@.len() as int) =~= v@);
    }
    out
}

/// Encode one value as the versioned envelope string.
pub fn write_envelope(value: &str) -> (r: String)
    ensures
        r@ == envelope_spec(value@),
{
    let mut out = String::new();
    push_char(&mut out, '{');
    push_char(&mut out, '"');
    push_char(&mut out, 'v');
    push_char(&mut out, '"');
    push_char(&mut out, ':');
    let version = decimal_string(SCHEMA_VERSION as u64);
    push_str(&mut out, version.as_str());
    push_char(&mut out, ',');
    push_char(&mut out, '"');
    push_char(&mut out, 'v');
    push_char(&mut out, 'a');
    push_char(&mut out, 'l');
    push_char(&mut out, 'u');
    push_char(&mut out, 'e');
    push_char(&mut out, '"');
    push_char(&mut out, ':');
    let body = json_string(value);
    push_str(&mut out, body.as_str());
    push_char(&mut out, '}');
    proof {
        assert(out@ =~= envelope_spec(value@));
    }
    out
}

// ---------------------------------------------------------------- reading ---

/// The value of a hex digit (either case), as `char::to_digit(16)` gives it.
pub open spec fn hex_value(c: char) -> Option<nat> {
    let u = c as u32;
    if 48 <= u <= 57 {
        Some((u - 48) as nat)
    } else if 97 <= u <= 102 {
        Some((u - 87) as nat)
    } else if 65 <= u <= 70 {
        Some((u - 55) as nat)
    } else {
        None
    }
}

/// The code point four hex digits spell.
pub open spec fn hex4_spec(s: Seq<char>) -> Option<nat> {
    match (hex_value(s[0]), hex_value(s[1]), hex_value(s[2]), hex_value(s[3])) {
        (Some(a), Some(b), Some(c), Some(d)) => Some(((a * 16 + b) * 16 + c) * 16 + d),
        _ => None,
    }
}

/// Whether `u` is a Unicode scalar value (what `char::from_u32` accepts).
pub open spec fn is_scalar_value(u: nat) -> bool {
    u < 0xD800 || (0xE000 <= u && u <= 0x10FFFF)
}

/// Read the body of a JSON string literal up to its closing quote: the decoded
/// characters and what follows the quote, or `None` on a malformed escape or
/// a missing closing quote.
pub open spec fn json_body_spec(s: Seq<char>) -> Option<(Seq<char>, Seq<char>)>
    decreases s.len(),
{
    if s.len() == 0 {
        None
    } else if s[0] == '"' {
        Some((Seq::empty(), s.drop_first()))
    } else if s[0] != '\\' {
        match json_body_spec(s.drop_first()) {
            Some((v, r)) => Some((seq![s[0]] + v, r)),
            None => None,
        }
    } else if s.len() < 2 {
        None
    } else {
        let e = s[1];
        let simple: Option<char> = if e == '"' {
            Some('"')
        } else if e == '\\' {
            Some('\\')
        } else if e == '/' {
            Some('/')
        } else if e == 'n' {
            Some('\n')
        } else if e == 'r' {
            Some('\r')
        } else if e == 't' {
            Some('\t')
        } else if e == 'b' {
            Some('\u{08}')
        } else if e == 'f' {
            Some('\u{0c}')
        } else {
            None
        };
        match simple {
            Some(c) => match json_body_spec(s.skip(2)) {
                Some((v, r)) => Some((seq![c] + v, r)),
                None => None,
            },
            None => if e == 'u' && s.len() >= 6 {
                match hex4_spec(s.subrange(2, 6)) {
                    Some(code) => if is_scalar_value(code) {
                        match json_body_spec(s.skip(6)) {
                            Some((v, r)) => Some((seq![(code as u32) as char] + v, r)),
                            None => None,
                        }
                    } else {
                        None
                    },
                    None => None,
                }
            } else {
                None
            },
        }
    }
}

/// A JSON string literal that is the whole (trimmed) input, decoded.
pub open spec fn parse_json_string_spec(s: Seq<char>) -> Option<Seq<char>> {
    let t = trim_spec(s);
    if t.len() == 0 || t[0] != '"' {
        None
    } else {
        match json_body_spec(t.drop_first()) {
            Some((v, r)) => if trim_spec(r).len() == 0 {
                Some(v)
            } else {
                None
            },
            None => None,
        }
    }
}

/// The value of a run of ASCII digits.
pub open spec fn digits_value(s: Seq<char>) -> nat
    decreases s.len(),
{
    if s.len() == 0 {
        0
    } else {
        digits_value(s.drop_last()) * 10 + ((s.last() as u32) - 48) as nat
    }
}

pub open spec fn is_digit(c: char) -> bool {
    48 <= (c as u32) <= 57
}

/// The digits of an unsigned number: `s` without one leading `+`.
pub open spec fn unsigned_digits(s: Seq<char>) -> Seq<char> {
    if s.len() > 0 && s[0] == '+' { s.drop_first() } else { s }
}

/// Every character is an ASCII digit.
pub open spec fn all_digits(d: Seq<char>) -> bool {
    forall|i: int| 0 <= i < d.len() ==> is_digit(#[trigger] d[i])
}

/// `u32::from_str`: an optional `+`, then one or more ASCII digits whose value
/// fits in a `u32`.
pub open spec fn parse_u32_spec(s: Seq<char>) -> Option<u32> {
    let d = unsigned_digits(s);
    if d.len() > 0 && all_digits(d) && digits_value(d) <= u32::MAX {
        Some(digits_value(d) as u32)
    } else {
        None
    }
}

/// The first index of `c` in `s`, or `-1`.
pub open spec fn first_index_of(s: Seq<char>, c: char) -> int
    decreases s.len(),
{
    if s.len() == 0 {
        -1
    } else if s[0] == c {
        0
    } else {
        let r = first_index_of(s.drop_first(), c);
        if r < 0 { -1 } else { r + 1 }
    }
}

/// Whether `s` begins with `p`.
pub open spec fn starts_with(s: Seq<char>, p: Seq<char>) -> bool {
    p.len() <= s.len() && s.take(p.len() as int) == p
}

pub open spec fn v_field() -> Seq<char> {
    seq!['"', 'v', '"']
}

pub open spec fn value_field() -> Seq<char> {
    seq!['"', 'v', 'a', 'l', 'u', 'e', '"']
}

/// The `"value" : <json string>` part of an envelope, from the field name on.
pub open spec fn value_part_spec(c: Seq<char>) -> Option<Seq<char>> {
    if !starts_with(c, value_field()) {
        None
    } else {
        let d = trim_start_spec(c.skip(7));
        if d.len() == 0 || d[0] != ':' {
            None
        } else {
            parse_json_string_spec(trim_start_spec(d.drop_first()))
        }
    }
}

/// The inside of an envelope's braces: `"v" : <u32> , "value" : <json string>`.
pub open spec fn decode_inner_spec(inner: Seq<char>) -> Option<(u32, Seq<char>)> {
    if !starts_with(inner, v_field()) {
        None
    } else {
        let a = trim_start_spec(inner.skip(3));
        if a.len() == 0 || a[0] != ':' {
            None
        } else {
            let b = trim_start_spec(a.drop_first());
            let comma = first_index_of(b, ',');
            if comma < 0 {
                None
            } else {
                match parse_u32_spec(trim_spec(b.take(comma))) {
                    None => None,
                    Some(version) => match value_part_spec(trim_start_spec(b.skip(comma + 1))) {
                        Some(value) => Some((version, value)),
                        None => None,
                    },
                }
            }
        }
    }
}

/// Decode a versioned envelope into `(version, value)`: a trimmed
/// `{ "v" : <u32> , "value" : <json string> }` with insignificant whitespace
/// between the parts, the two fields in that order and nothing else.
pub open spec fn decode_envelope_spec(raw: Seq<char>) -> Option<(u32, Seq<char>)> {
    let r = trim_spec(raw);
    if r.len() < 2 || r[0] != '{' || r.last() != '}' {
        None
    } else {
        decode_inner_spec(trim_spec(r.subrange(1, r.len() - 1)))
    }
}

/// Why a stored envelope was rejected.
#[derive(Clone, Copy, PartialEq, Eq, Debug)]
pub enum AnomalyReason {
    /// The raw value did not parse as a versioned envelope.
    Corrupt,
    /// The envelope's version is newer than this build understands.
    UnsupportedNewer,
    /// The envelope's version is older than this build and no migration is
    /// defined.
    UnsupportedOlder,
}

/// The outcome of parsing one stored envelope.
#[derive(Debug)]
pub enum EnvelopeParse {
    /// A well-formed, current-version envelope: its `value`.
    Valid(String),
    /// A rejected envelope and why.
    Anomaly(AnomalyReason),
}

/// The outcome of parsing one stored envelope, as a value or a reason.
pub open spec fn parse_envelope_spec(raw: Seq<char>) -> Result<Seq<char>, AnomalyReason> {
    match decode_envelope_spec(raw) {
        None => Err(AnomalyReason::Corrupt),
        Some((version, value)) => if version == SCHEMA_VERSION {
            Ok(value)
        } else if version > SCHEMA_VERSION {
            Err(AnomalyReason::UnsupportedNewer)
        } else {
            Err(AnomalyReason::UnsupportedOlder)
        },
    }
}

/// Whether an `EnvelopeParse` is the stated outcome.
pub open spec fn envelope_parse_is(p: EnvelopeParse, r: Result<Seq<char>, AnomalyReason>) -> bool {
    match (p, r) {
        (EnvelopeParse::Valid(v), Ok(w)) => v@ == w,
        (EnvelopeParse::Anomaly(a), Err(b)) => a == b,
        _ => false,
    }
}

/// Skip whitespace from `from` up to `to`.
fn skip_ws(v: &Vec<char>, from: usize, to: usize) -> (r: usize)
    requires
        from <= to <= v.len(),
    ensures
        from <= r <= to,
        v@.subrange(r as int, to as int) == trim_start_spec(v@.subrange(from as int, to as int)),
{
    let mut a = from;
    while a < to && char_is_ws(v[a])
        invariant
            from <= a <= to <= v.len(),
            trim_start_spec(v@.subrange(from as int, to as int)) == trim_start_spec(v@.subrange(a as int, to as int)),
        decreases to - a,
    {
        proof {
            let s = v@.subrange(a as int, to as int);
            assert(s.drop_first() =~= v@.subrange(a + 1, to as int));
        }
        a = a + 1;
    }
    a
}

/// The first index of `c` in `v[from..to]`, as an absolute index.
fn find_first(v: &Vec<char>, from: usize, to: usize, c: char) -> (r: Option<usize>)
    requires
        from <= to <= v.len(),
    ensures
        match r {
            Some(i) => from <= i < to && i - from == first_index_of(v@.subrange(from as int, to as int), c),
            None => first_index_of(v@.subrange(from as int, to as int), c) == -1,
        },
{
    let mut i = from;
    while i < to
        invariant
            from <= i <= to <= v.len(),
            forall|j: int| from <= j < i ==> v@[j] != c,
        decreases to - i,
    {
        if v[i] == c {
            proof {
                lemma_first_index(v@.subrange(from as int, to as int), c, i - from);
            }
            return Some(i);
        }
        i = i + 1;
    }
    proof {
        lemma_first_index_none(v@.subrange(from as int, to as int), c);
    }
    None
}

proof fn lemma_first_index(s: Seq<char>, c: char, k: int)
    requires
        0 <= k < s.len(),
        s[k] == c,
        forall|j: int| 0 <= j < k ==> s[j] != c,
    ensures
        first_index_of(s, c) == k,
    decreases k,
{
    if k > 0 {
        assert forall|j: int| 0 <= j < k - 1 implies s.drop_first()[j] != c by {
            assert(s.drop_first()[j] == s[j + 1]);
        }
        lemma_first_index(s.drop_first(), c, k - 1);
    }
}

proof fn lemma_first_index_none(s: Seq<char>, c: char)
    requires
        forall|j: int| 0 <= j < s.len() ==> s[j] != c,
    ensures
        first_index_of(s, c) == -1,
    decreases s.len(),
{
    if s.len() > 0 {
        assert forall|j: int| 0 <= j < s.drop_first().len() implies s.drop_first()[j] != c by {
            assert(s.drop_first()[j] == s[j + 1]);
        }
        lemma_first_index_none(s.drop_first(), c);
    }
}

fn hex_value_of(c: char) -> (r: Option<u32>)
    ensures
        match hex_value(c) {
            Some(d) => r == Some(d as u32),
            None => r is None,
        },
{
    let u = c as u32;
    if 48 <= u && u <= 57 {
        Some(u - 48)
    } else if 97 <= u && u <= 102 {
        Some(u - 87)
    } else if 65 <= u && u <= 70 {
        Some(u - 55)
    } else {
        None
    }
}

/// Read a JSON string body from `v[from..to]`: the decoded string and the
/// index just past the closing quote.
fn json_body(v: &Vec<char>, from: usize, to: usize) -> (r: Option<(String, usize)>)
    requires
        from <= to <= v.len(),
    ensures
        match json_body_spec(v@.subrange(from as int, to as int)) {
            Some((val, rest)) => match r {
                Some((got, end)) => got@ == val && from < end <= to && v@.subrange(
                    end as int,
                    to as int,
                ) == rest,
                None => false,
            },
            None => r is None,
        },
    decreases to - from,
{
    let ghost s = v@.subrange(from as int, to as int);
    if from == to {
        return None;
    }
    let c = v[from];
    if c == '"' {
        proof {
            assert(s.drop_first() =~= v@.subrange(from + 1, to as int));
        }
        return Some((String::new(), from + 1));
    }
    if c != '\\' {
        proof {
            assert(s.drop_first() =~= v@.subrange(from + 1, to as int));
        }
        match json_body(v, from + 1, to) {
            Some((rest_val, end)) => {
                let mut out = String::new();
                push_char(&mut out, c);
                push_str(&mut out, rest_val.as_str());
                return Some((out, end));
            },
            None => {
                return None;
            },
        }
    }
    if to - from < 2 {
        return None;
    }
    let e = v[from + 1];
    let simple: Option<char> = if e == '"' {
        Some('"')
    } else if e == '\\' {
        Some('\\')
    } else if e == '/' {
        Some('/')
    } else if e == 'n' {
        Some('\n')
    } else if e == 'r' {
        Some('\r')
    } else if e == 't' {
        Some('\t')
    } else if e == 'b' {
        Some('\u{08}')
    } else if e == 'f' {
        Some('\u{0c}')
    } else {
        None
    };
    proof {
        assert(s[1] == e);
        assert(s.skip(2) =~= v@.subrange(from + 2, to as int));
    }
    match simple {
        Some(d) => match json_body(v, from + 2, to) {
            Some((rest_val, end)) => {
                let mut out = String::new();
                push_char(&mut out, d);
                push_str(&mut out, rest_val.as_str());
                Some((out, end))
            },
            None => None,
        },
        None => {
            if e == 'u' && to - from >= 6 {
                proof {
                    assert(s.skip(6) =~= v@.subrange(from + 6, to as int));
                    assert(s.subrange(2, 6)[0] == v@[from + 2]);
                    assert(s.subrange(2, 6)[1] == v@[from + 3]);
                    assert(s.subrange(2, 6)[2] == v@[from + 4]);
                    assert(s.subrange(2, 6)[3] == v@[from + 5]);
                }
                let h0 = hex_value_of(v[from + 2]);
                let h1 = hex_value_of(v[from + 3]);
                let h2 = hex_value_of(v[from + 4]);
                let h3 = hex_value_of(v[from + 5]);
                match (h0, h1, h2, h3) {
                    (Some(a), Some(b), Some(cc), Some(d)) => {
                        let code: u32 = ((a * 16 + b) * 16 + cc) * 16 + d;
                        if code < 0xD800 || (0xE000 <= code && code <= 0x10FFFF) {
                            let ch = char_from_scalar(code);
                            match json_body(v, from + 6, to) {
                                Some((rest_val, end)) => {
                                    let mut out = String::new();
                                    push_char(&mut out, ch);
                                    push_str(&mut out, rest_val.as_str());
                                    Some((out, end))
                                },
                                None => None,
                            }
                        } else {
                            None
                        }
                    },
                    _ => None,
                }
            } else {
                None
            }
        },
    }
}

/// `char::from_u32` on a value known to be a scalar value.
#[verifier::external_body]
fn char_from_scalar(code: u32) -> (c: char)
    requires
        is_scalar_value(code as nat),
    ensures
        c == (code as char),
{
    char::from_u32(code).unwrap()
}

/// Parse a JSON string literal that is the whole (trimmed) `v[from..to]`.
fn json_string_in(v: &Vec<char>, from: usize, to: usize) -> (r: Option<String>)
    requires
        from <= to <= v.len(),
    ensures
        match parse_json_string_spec(v@.subrange(from as int, to as int)) {
            Some(val) => r is Some && r->0@ == val,
            None => r is None,
        },
{
    let (a, b) = trim_bounds(v, from, to);
    if a == b || v[a] != '"' {
        return None;
    }
    proof {
        let t = v@.subrange(a as int, b as int);
        assert(t.drop_first() =~= v@.subrange(a + 1, b as int));
    }
    match json_body(v, a + 1, b) {
        Some((val, end)) => {
            let (c, d) = trim_bounds(v, end, b);
            if c == d {
                Some(val)
            } else {
                None
            }
        },
        None => None,
    }
}

/// Parse a leading JSON string literal from `s`, requiring it to be the whole
/// remaining (trimmed) input.
pub fn parse_json_string(s: &str) -> (r: Option<String>)
    ensures
        match parse_json_string_spec(s@) {
            Some(val) => r is Some && r->0@ == val,
            None => r is None,
        },
{
    let v = chars_of(s);
    proof {
        assert(v@.subrange(0, v@.len() as int) =~= v@);
    }
    json_string_in(&v, 0, v.len())
}

proof fn lemma_digits_value_push(s: Seq<char>, c: char)
    ensures
        digits_value(s.push(c)) == digits_value(s) * 10 + ((c as u32) - 48) as nat,
{
    assert(s.push(c).drop_last() =~= s);
}

/// `u32::from_str` on `v[from..to]`.
fn parse_u32_in(v: &Vec<char>, from: usize, to: usize) -> (r: Option<u32>)
    requires
        from <= to <= v.len(),
    ensures
        r == parse_u32_spec(v@.subrange(from as int, to as int)),
{
    let ghost s = v@.subrange(from as int, to as int);
    let start = if from < to && v[from] == '+' { from + 1 } else { from };
    let ghost d = v@.subrange(start as int, to as int);
    let ghost dd = unsigned_digits(s);
    proof {
        if from < to && v@[from as int] == '+' {
            assert(s.drop_first() =~= d);
        } else {
            assert(s =~= d);
        }
        assert(dd == d);
    }
    if start == to {
        return None;
    }
    let mut value: u64 = 0;
    let mut i = start;
    while i < to
        invariant
            start <= i <= to <= v.len(),
            d == v@.subrange(start as int, to as int),
            s == v@.subrange(from as int, to as int),
            dd == d,
            dd == unsigned_digits(s),
            d.len() > 0,
            forall|j: int| start <= j < i ==> is_digit(#[trigger] v@[j]),
            value == digits_value(v@.subrange(start as int, i as int)),
            value <= u32::MAX,
        decreases to - i,
    {
        let c = v[i];
        let u = c as u32;
        if !(48 <= u && u <= 57) {
            proof {
                assert(d[i - start] == c);
                assert(!is_digit(d[i - start]));
                lemma_parse_u32_nondigit(s, (i - start) as int);
            }
            return None;
        }
        proof {
            assert(v@.subrange(start as int, i + 1) =~= v@.subrange(start as int, i as int).push(c));
            lemma_digits_value_push(v@.subrange(start as int, i as int), c);
        }
        let next = value * 10 + (u - 48) as u64;
        if next > 4294967295 {
            proof {
                assert(d.take(i + 1 - start) =~= v@.subrange(start as int, i + 1));
                lemma_parse_u32_overflow(s, (i + 1 - start) as int);
            }
            return None;
        }
        value = next;
        i = i + 1;
    }
    proof {
        assert forall|j: int| 0 <= j < d.len() implies is_digit(#[trigger] d[j]) by {
            assert(d[j] == v@[start + j]);
        }
    }
    Some(value as u32)
}

proof fn lemma_parse_u32_nondigit(s: Seq<char>, k: int)
    requires
        0 <= k < unsigned_digits(s).len(),
        !is_digit(unsigned_digits(s)[k]),
    ensures
        parse_u32_spec(s) is None,
{
}

proof fn lemma_parse_u32_overflow(s: Seq<char>, k: int)
    requires
        0 <= k <= unsigned_digits(s).len(),
        digits_value(unsigned_digits(s).take(k)) > u32::MAX,
    ensures
        parse_u32_spec(s) is None,
{
    let d = unsigned_digits(s);
    if d.len() > 0 && all_digits(d) {
        lemma_digits_prefix_bound(d, k);
    }
}

proof fn lemma_digits_prefix_bound(d: Seq<char>, k: int)
    requires
        0 <= k <= d.len(),
        all_digits(d),
    ensures
        digits_value(d) >= digits_value(d.take(k)),
    decreases d.len() - k,
{
    if k < d.len() {
        lemma_digits_prefix_bound(d, k + 1);
        assert(d.take(k + 1).drop_last() =~= d.take(k));
        assert(is_digit(d[k]));
    } else {
        assert(d.take(k) =~= d);
    }
}

/// The value part `"value" : <json string>` in `v[c..ie]`.
fn value_part(v: &Vec<char>, c: usize, ie: usize) -> (r: Option<String>)
    requires
        c <= ie <= v.len(),
    ensures
        match value_part_spec(v@.subrange(c as int, ie as int)) {
            Some(val) => match r {
                Some(got) => got@ == val,
                None => false,
            },
            None => r is None,
        },
{
    let ghost cs = v@.subrange(c as int, ie as int);
    if ie - c < 7 || v[c] != '"' || v[c + 1] != 'v' || v[c + 2] != 'a' || v[c + 3] != 'l' || v[c + 4]
        != 'u' || v[c + 5] != 'e' || v[c + 6] != '"' {
        proof {
            if ie - c >= 7 {
                assert(cs.take(7)[0] == v@[c as int]);
                assert(cs.take(7)[1] == v@[c + 1]);
                assert(cs.take(7)[2] == v@[c + 2]);
                assert(cs.take(7)[3] == v@[c + 3]);
                assert(cs.take(7)[4] == v@[c + 4]);
                assert(cs.take(7)[5] == v@[c + 5]);
                assert(cs.take(7)[6] == v@[c + 6]);
            }
        }
        return None;
    }
    proof {
        assert(cs.take(7) =~= value_field());
        assert(cs.skip(7) =~= v@.subrange(c + 7, ie as int));
    }
    let d = skip_ws(v, c + 7, ie);
    if d == ie || v[d] != ':' {
        return None;
    }
    proof {
        assert(v@.subrange(d as int, ie as int).drop_first() =~= v@.subrange(d + 1, ie as int));
    }
    let e = skip_ws(v, d + 1, ie);
    json_string_in(v, e, ie)
}

/// The inside of an envelope's braces, `v[is..ie]`.
fn decode_inner(v: &Vec<char>, is: usize, ie: usize) -> (r: Option<(u32, String)>)
    requires
        is <= ie <= v.len(),
    ensures
        match decode_inner_spec(v@.subrange(is as int, ie as int)) {
            Some((ver, val)) => match r {
                Some((got_ver, got_val)) => got_ver == ver && got_val@ == val,
                None => false,
            },
            None => r is None,
        },
{
    let ghost inner = v@.subrange(is as int, ie as int);
    if ie - is < 3 || v[is] != '"' || v[is + 1] != 'v' || v[is + 2] != '"' {
        proof {
            if ie - is >= 3 {
                assert(inner.take(3)[0] == v@[is as int]);
                assert(inner.take(3)[1] == v@[is + 1]);
                assert(inner.take(3)[2] == v@[is + 2]);
            }
        }
        return None;
    }
    proof {
        assert(inner.take(3) =~= v_field());
        assert(inner.skip(3) =~= v@.subrange(is + 3, ie as int));
    }
    let a = skip_ws(v, is + 3, ie);
    if a == ie || v[a] != ':' {
        return None;
    }
    proof {
        assert(v@.subrange(a as int, ie as int).drop_first() =~= v@.subrange(a + 1, ie as int));
    }
    let b = skip_ws(v, a + 1, ie);
    let ghost bs = v@.subrange(b as int, ie as int);
    let comma = match find_first(v, b, ie, ',') {
        Some(c) => c,
        None => {
            return None;
        },
    };
    proof {
        assert(bs.take(comma - b) =~= v@.subrange(b as int, comma as int));
        assert(bs.skip(comma - b + 1) =~= v@.subrange(comma + 1, ie as int));
    }
    let (ts, te) = trim_bounds(v, b, comma);
    let version = match parse_u32_in(v, ts, te) {
        Some(ver) => ver,
        None => {
            return None;
        },
    };
    let c = skip_ws(v, comma + 1, ie);
    match value_part(v, c, ie) {
        Some(value) => Some((version, value)),
        None => None,
    }
}

/// Decode a versioned envelope into `(version, value)`, or `None` if it is not a
/// well-formed `{ "v": <int>, "value": "<string>" }` object.
pub fn decode_envelope(raw: &str) -> (r: Option<(u32, String)>)
    ensures
        match decode_envelope_spec(raw@) {
            Some((ver, val)) => match r {
                Some((got_ver, got_val)) => got_ver == ver && got_val@ == val,
                None => false,
            },
            None => r is None,
        },
{
    let v = chars_of(raw);
    let n = v.len();
    proof {
        assert(v@.subrange(0, n as int) =~= v@);
    }
    let (rs, re) = trim_bounds(&v, 0, n);
    let ghost r = v@.subrange(rs as int, re as int);
    if re - rs < 2 || v[rs] != '{' || v[re - 1] != '}' {
        return None;
    }
    proof {
        assert(r.subrange(1, r.len() - 1) =~= v@.subrange(rs + 1, re - 1));
    }
    let (is, ie) = trim_bounds(&v, rs + 1, re - 1);
    decode_inner(&v, is, ie)
}

/// Parse `{ "v": <n>, "value": "<string>" }`, gating on [`SCHEMA_VERSION`].
pub fn parse_envelope(raw: &str) -> (r: EnvelopeParse)
    ensures
        envelope_parse_is(r, parse_envelope_spec(raw@)),
{
    match decode_envelope(raw) {
        None => EnvelopeParse::Anomaly(AnomalyReason::Corrupt),
        Some((version, value)) => {
            if version == SCHEMA_VERSION {
                EnvelopeParse::Valid(value)
            } else if version > SCHEMA_VERSION {
                EnvelopeParse::Anomaly(AnomalyReason::UnsupportedNewer)
            } else {
                EnvelopeParse::Anomaly(AnomalyReason::UnsupportedOlder)
            }
        },
    }
}

// ------------------------------------------------------- percent-encoding ---

/// `encodeURIComponent`'s unreserved set: `A–Z a–z 0–9 - _ . ! ~ * ' ( )`.
pub open spec fn is_unreserved(b: u8) -> bool {
    (65 <= b <= 90) || (97 <= b <= 122) || (48 <= b <= 57) || b == 45 || b == 95 || b == 46 || b
        == 33 || b == 126 || b == 42 || b == 39 || b == 40 || b == 41
}

/// How one UTF-8 byte is written in a key component.
pub open spec fn encode_byte_spec(b: u8) -> Seq<char> {
    if is_unreserved(b) {
        seq![(b as u32) as char]
    } else {
        seq!['%', hex_upper((b / 16) as nat), hex_upper((b % 16) as nat)]
    }
}

/// The percent-encoding of a byte sequence, byte by byte.
pub open spec fn encode_bytes_spec(bs: Seq<u8>) -> Seq<char>
    decreases bs.len(),
{
    if bs.len() == 0 {
        Seq::empty()
    } else {
        encode_bytes_spec(bs.drop_last()) + encode_byte_spec(bs.last())
    }
}

fn push_hex_upper(out: &mut String, d: u8)
    requires
        d < 16,
    ensures
        final(out)@ == old(out)@.push(hex_upper(d as nat)),
{
    let c = if d < 10 { (d + 48) as char } else { (d - 10 + 65) as char };
    push_char(out, c);
}

/// The percent-encoding of a string's UTF-8 bytes.
pub open spec fn encode_component_spec(s: Seq<char>) -> Seq<char> {
    encode_bytes_spec(vstd::utf8::encode_utf8(s))
}

/// Percent-encode one key component with exactly `encodeURIComponent`'s
/// unreserved set and uppercase hex, over the component's UTF-8 bytes.
pub fn encode_component(component: &str) -> (r: String)
    ensures
        r@ == encode_component_spec(component@),
{
    let bytes = component.as_bytes();
    let mut out = String::new();
    let mut i: usize = 0;
    while i < bytes.len()
        invariant
            i <= bytes@.len(),
            bytes@ == component.spec_bytes(),
            out@ == encode_bytes_spec(bytes@.take(i as int)),
        decreases bytes.len() - i,
    {
        let b = bytes[i];
        let ghost before = out@;
        if (65 <= b && b <= 90) || (97 <= b && b <= 122) || (48 <= b && b <= 57) || b == 45 || b
            == 95 || b == 46 || b == 33 || b == 126 || b == 42 || b == 39 || b == 40 || b == 41 {
            push_char(&mut out, b as char);
        } else {
            proof {
                assert(b >> 4 == b / 16) by (bit_vector);
                assert(b & 0xF == b % 16) by (bit_vector);
            }
            push_char(&mut out, '%');
            push_hex_upper(&mut out, b >> 4);
            push_hex_upper(&mut out, b & 0xF);
        }
        proof {
            assert(bytes@.take(i + 1).drop_last() =~= bytes@.take(i as int));
            assert(out@ =~= before + encode_byte_spec(b));
        }
        i = i + 1;
    }
    proof {
        assert(bytes@.take(bytes@.len() as int) =~= bytes@);
    }
    out
}

} // verus!

verus! {

// ------------------------------------------------------------- round trip ---

proof fn lemma_trim_noop(s: Seq<char>)
    requires
        s.len() > 0,
        !is_ws(s[0]),
        !is_ws(s.last()),
    ensures
        trim_spec(s) == s,
        trim_start_spec(s) == s,
{
    assert(trim_start_spec(s) == s);
    assert(trim_end_spec(s) == s);
}

proof fn lemma_hex_lower_value(d: nat)
    requires
        d < 16,
    ensures
        hex_value(hex_lower(d)) == Some(d),
{
    if d < 10 {
        assert(((d + 48) as u32) as char as u32 == (d + 48) as u32);
    } else {
        assert(((d - 10 + 97) as u32) as char as u32 == (d - 10 + 97) as u32);
    }
}

/// Reading back an escaped body followed by a closing quote yields the
/// characters it was written from and whatever followed the quote.
pub proof fn lemma_json_body_round_trip(v: Seq<char>, rest: Seq<char>)
    ensures
        json_body_spec(json_escape(v) + seq!['"'] + rest) == Some((v, rest)),
    decreases v.len(),
{
    let s = json_escape(v) + seq!['"'] + rest;
    if v.len() == 0 {
        assert(json_escape(v) == Seq::<char>::empty());
        assert(s =~= seq!['"'] + rest);
        assert(s.drop_first() =~= rest);
    } else {
        let c = v[0];
        let t = v.drop_first();
        let x = json_escape(t) + seq!['"'] + rest;
        lemma_json_body_round_trip(t, rest);
        assert(v =~= seq![c] + t);
        assert(s =~= json_escape_char(c) + x);
        let e = json_escape_char(c);
        if c == '"' || c == '\\' || c == '\n' || c == '\r' || c == '\t' {
            assert(s.skip(2) =~= x);
            assert(s[0] == '\\');
            assert(s[1] == e[1]);
        } else if (c as u32) < 0x20 {
            let u = c as u32;
            assert(s.skip(6) =~= x);
            assert(s.subrange(2, 6) =~= seq!['0', '0', hex_lower((u / 16) as nat), hex_lower((u % 16) as nat)]);
            lemma_hex_lower_value((u / 16) as nat);
            lemma_hex_lower_value((u % 16) as nat);
            assert(hex_value('0') == Some(0nat));
            let code = ((0nat * 16 + 0) * 16 + (u / 16) as nat) * 16 + (u % 16) as nat;
            assert(code == u);
            assert(hex4_spec(s.subrange(2, 6)) == Some(code));
            vstd::utf8::char_u32_cast(c, u);
            assert(s[0] == '\\');
            assert(s[1] == 'u');
        } else {
            assert(s[0] == c);
            assert(s.drop_first() =~= x);
        }
    }
}

/// A written JSON string literal reads back as the characters it was written from.
pub proof fn lemma_json_string_round_trip(v: Seq<char>)
    ensures
        parse_json_string_spec(json_string_spec(v)) == Some(v),
{
    let j = json_string_spec(v);
    lemma_trim_noop(j);
    assert(j.drop_first() =~= json_escape(v) + seq!['"'] + Seq::<char>::empty());
    lemma_json_body_round_trip(v, Seq::<char>::empty());
    assert(trim_spec(Seq::<char>::empty()) == Seq::<char>::empty()) by {
        assert(trim_start_spec(Seq::<char>::empty()) == Seq::<char>::empty());
        assert(trim_end_spec(Seq::<char>::empty()) == Seq::<char>::empty());
    }
}

proof fn lemma_value_part(value: Seq<char>)
    ensures
        value_part_spec(seq!['"', 'v', 'a', 'l', 'u', 'e', '"', ':'] + json_string_spec(value))
            == Some(value),
{
    let j = json_string_spec(value);
    let c = seq!['"', 'v', 'a', 'l', 'u', 'e', '"', ':'] + j;
    lemma_trim_noop(j);
    lemma_trim_noop(c);
    assert(c.take(7) =~= value_field());
    let d = c.skip(7);
    assert(d =~= seq![':'] + j);
    lemma_trim_noop(d);
    assert(d.drop_first() =~= j);
    lemma_json_string_round_trip(value);
}

proof fn lemma_parse_one()
    ensures
        parse_u32_spec(seq!['1']) == Some(1u32),
        trim_spec(seq!['1']) == seq!['1'],
{
    let digits = seq!['1'];
    lemma_trim_noop(digits);
    assert(unsigned_digits(digits) == digits);
    assert(digits.drop_last() =~= Seq::<char>::empty());
    assert(digits.last() == '1');
    assert(('1' as u32) == 49);
    assert(digits_value(Seq::<char>::empty()) == 0);
    assert(digits_value(digits) == digits_value(digits.drop_last()) * 10 + ((digits.last() as u32) - 48) as nat);
    assert(digits_value(digits) == 1);
    assert(all_digits(digits));
}

proof fn lemma_inner(value: Seq<char>)
    ensures
        decode_inner_spec(seq!['"', 'v', '"', ':', '1', ','] + seq!['"', 'v', 'a', 'l', 'u', 'e', '"', ':']
            + json_string_spec(value)) == Some((1u32, value)),
{
    let j = json_string_spec(value);
    let tail = seq!['"', 'v', 'a', 'l', 'u', 'e', '"', ':'] + j;
    let inner = seq!['"', 'v', '"', ':', '1', ','] + tail;
    assert(inner.take(3) =~= v_field());
    let a = inner.skip(3);
    assert(a =~= seq![':', '1', ','] + tail);
    lemma_trim_noop(j);
    lemma_trim_noop(a);
    let b = a.drop_first();
    assert(b =~= seq!['1', ','] + tail);
    lemma_trim_noop(b);
    assert(b.drop_first()[0] == ',');
    assert(first_index_of(b.drop_first(), ',') == 0);
    assert(first_index_of(b, ',') == 1);
    assert(b.take(1) =~= seq!['1']);
    lemma_parse_one();
    let c = b.skip(2);
    assert(c =~= tail);
    lemma_trim_noop(c);
    lemma_value_part(value);
    assert(value_part_spec(trim_start_spec(b.skip(2))) == Some(value));
    assert(parse_u32_spec(trim_spec(b.take(1))) == Some(1u32));
    assert(a[0] == ':');
    assert(trim_start_spec(inner.skip(3)) == a);
    assert(trim_start_spec(a.drop_first()) == b);
    assert(starts_with(inner, v_field()));
    assert(decode_inner_spec(inner) == Some((1u32, value)));
    assert(inner =~= seq!['"', 'v', '"', ':', '1', ','] + seq!['"', 'v', 'a', 'l', 'u', 'e', '"', ':']
            + json_string_spec(value));
}

/// What [`write_envelope`] writes, [`parse_envelope`] reads back as the same
/// value at the current schema version.
pub proof fn lemma_envelope_round_trip(value: Seq<char>)
    ensures
        decode_envelope_spec(envelope_spec(value)) == Some((SCHEMA_VERSION, value)),
        parse_envelope_spec(envelope_spec(value)) == Ok::<Seq<char>, AnomalyReason>(value),
{
    let j = json_string_spec(value);
    lemma_decimal_one();
    let raw = envelope_spec(value);
    lemma_trim_noop(raw);
    let inner = raw.subrange(1, raw.len() - 1);
    assert(inner =~= seq!['"', 'v', '"', ':', '1', ','] + seq!['"', 'v', 'a', 'l', 'u', 'e', '"', ':'] + j);
    lemma_trim_noop(j);
    lemma_trim_noop(inner);
    lemma_inner(value);
}

proof fn lemma_decimal_one()
    ensures
        decimal_spec(1) == seq!['1'],
{
    assert(digit_char(1) == '1');
    assert(decimal_spec(1) =~= seq!['1']);
}

} // verus!
