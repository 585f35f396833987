//! Decimal and hexadecimal text of register values, and the parsing of
//! values that a user types in.

use vstd::prelude::*;
use vstd::string::{StrSliceExecFns, StringExecFns};

verus! {

/// The ASCII digit character for a value below 10.
pub open spec fn digit_char(d: nat) -> char {
    (d + 48) as char
}

/// The decimal text of a natural number, without leading zeros.
pub open spec fn decimal(n: nat) -> Seq<char>
    decreases n,
{
    if n < 10 {
        seq![digit_char(n)]
    } else {
        decimal(n / 10).push(digit_char(n % 10))
    }
}

/// The upper-case hexadecimal digit character for a value below 16.
pub open spec fn hex_char(d: nat) -> char {
    if d < 10 {
        (d + 48) as char
    } else {
        (d + 55) as char
    }
}

/// Two upper-case hexadecimal digits of a byte (`{:02X}`).
pub open spec fn hex2(b: u8) -> Seq<char> {
    seq![hex_char((b / 16) as nat), hex_char((b % 16) as nat)]
}

/// Four upper-case hexadecimal digits of a 16-bit value (`{:04X}`).
pub open spec fn hex4(v: u16) -> Seq<char> {
    hex2((v / 0x100) as u8) + hex2((v % 0x100) as u8)
}

/// Calls `String::push`. Claimed: the character is appended.
#[verifier::external_body]
pub(crate) fn push_char(s: &mut String, c: char)
    ensures
        final(s)@ == old(s)@.push(c),
{
    s.push(c);
}

/// Append the decimal text of `v` to `out`.
pub fn push_decimal(out: &mut String, v: u32)
    ensures
        final(out)@ == old(out)@ + decimal(v as nat),
    decreases v,
{
    if v >= 10 {
        push_decimal(out, v / 10);
    }
    let d: u8 = (v % 10) as u8;
    let c: char = (d + 48) as char;
    push_char(out, c);
    assert(final(out)@ =~= old(out)@ + decimal(v as nat)) by {
        if v >= 10 {
            assert(decimal(v as nat) == decimal((v / 10) as nat).push(digit_char((v % 10) as nat)));
        }
    }
}

/// The decimal text of `v`.
pub fn format_decimal(v: u32) -> (s: String)
    ensures
        s@ == decimal(v as nat),
{
    let mut s = String::new();
    push_decimal(&mut s, v);
    assert(s@ =~= decimal(v as nat));
    s
}

fn hex_digit(d: u8) -> (c: char)
    requires
        d < 16,
    ensures
        c == hex_char(d as nat),
{
    if d < 10 {
        (d + 48) as char
    } else {
        (d + 55) as char
    }
}

/// Append two upper-case hexadecimal digits of `b` to `out`.
pub fn push_hex2(out: &mut String, b: u8)
    ensures
        final(out)@ == old(out)@ + hex2(b),
{
    push_char(out, hex_digit(b / 16));
    push_char(out, hex_digit(b % 16));
    assert(final(out)@ =~= old(out)@ + hex2(b));
}

/// The four-digit upper-case hexadecimal text of a 16-bit value, as a data
/// tag is shown.
pub fn format_hex4(v: u16) -> (s: String)
    ensures
        s@ == hex4(v),
{
    let mut s = String::new();
    push_hex2(&mut s, (v / 0x100) as u8);
    push_hex2(&mut s, (v % 0x100) as u8);
    assert(s@ =~= hex4(v));
    s
}


/// The value of a digit character in base 10 or 16 (either case), if it is
/// a digit of that base.
pub open spec fn digit_value(c: char, radix: int) -> Option<int> {
    let v = c as int;
    if 48 <= v <= 57 && v - 48 < radix {
        Some(v - 48)
    } else if radix == 16 && 97 <= v <= 102 {
        Some(v - 87)
    } else if radix == 16 && 65 <= v <= 70 {
        Some(v - 55)
    } else {
        None
    }
}

/// Whether every character of `d` is a digit of the base.
pub open spec fn all_digits(d: Seq<char>, radix: int) -> bool {
    forall|i: int| 0 <= i < d.len() ==> (#[trigger] digit_value(d[i], radix)) is Some
}

/// The value of a string of digits of the base (most significant first).
pub open spec fn digits_value(d: Seq<char>, radix: int) -> int
    decreases d.len(),
{
    if d.len() == 0 {
        0
    } else {
        digits_value(d.drop_last(), radix) * radix + digit_value(d.last(), radix)->0
    }
}

/// The digits of an unsigned number's text: the text without one leading
/// '+' sign.
pub open spec fn unsigned_digits(s: Seq<char>) -> Seq<char> {
    if s.len() > 0 && s[0] == '+' {
        s.drop_first()
    } else {
        s
    }
}

/// What Rust's unsigned integer parsing (`from_str`, `from_str_radix`) makes
/// of a text for a type whose largest value is `max`: an optional '+', then
/// one or more digits of the base and nothing else, with a value at most
/// `max`.
pub open spec fn parse_unsigned(s: Seq<char>, radix: int, max: int) -> Option<int> {
    let d = unsigned_digits(s);
    if d.len() == 0 || !all_digits(d, radix) || digits_value(d, radix) > max {
        None
    } else {
        Some(digits_value(d, radix))
    }
}

fn char_digit(c: char, radix: u32) -> (r: Option<u32>)
    requires
        radix == 10 || radix == 16,
    ensures
        r matches Some(v) ==> digit_value(c, radix as int) == Some(v as int),
        r is None ==> digit_value(c, radix as int) is None,
{
    let v = c as u32;
    if 48 <= v && v <= 57 {
        Some(v - 48)
    } else if radix == 16 && 97 <= v && v <= 102 {
        Some(v - 87)
    } else if radix == 16 && 65 <= v && v <= 70 {
        Some(v - 55)
    } else {
        None
    }
}

proof fn lemma_digits_grow(v: int, radix: int, d: int, max: int)
    requires
        v > max,
        max >= 0,
        radix >= 1,
        d >= 0,
    ensures
        v * radix + d > max,
{
    assert(v * radix >= v) by (nonlinear_arith)
        requires
            v >= 0,
            radix >= 1,
    ;
}

/// Parse an unsigned number of at most `max` in base 10 or 16 as Rust's
/// integer parsing does.
fn parse_unsigned_str(s: &str, radix: u32, max: u32) -> (r: Option<u32>)
    requires
        radix == 10 || radix == 16,
    ensures
        r matches Some(v) ==> parse_unsigned(s@, radix as int, max as int) == Some(v as int),
        r is None ==> parse_unsigned(s@, radix as int, max as int) is None,
{
    let n = s.unicode_len();
    let mut start: usize = 0;
    if n > 0 && s.get_char(0) == '+' {
        start = 1;
    }
    let ghost d = unsigned_digits(s@);
    assert(d =~= s@.subrange(start as int, n as int));
    if start == n {
        return None;
    }
    let mut acc: u64 = 0;
    let mut overflow = false;
    let mut i = start;
    while i < n
        invariant
            radix == 10 || radix == 16,
            n == s@.len(),
            start <= i <= n,
            d == s@.subrange(start as int, n as int),
            d == unsigned_digits(s@),
            all_digits(s@.subrange(start as int, i as int), radix as int),
            !overflow ==> acc == digits_value(s@.subrange(start as int, i as int), radix as int)
                && acc <= max,
            overflow ==> digits_value(s@.subrange(start as int, i as int), radix as int) > max,
        decreases n - i,
    {
        let c = s.get_char(i);
        let ghost p = s@.subrange(start as int, i as int);
        let ghost q = s@.subrange(start as int, i + 1);
        assert(q.drop_last() =~= p);
        match char_digit(c, radix) {
            None => {
                assert(d[i - start] == c);
                assert(digit_value(d[i - start], radix as int) is None);
                assert(!all_digits(d, radix as int));
                return None;
            },
            Some(v) => {
                assert forall|k: int| 0 <= k < q.len() implies (#[trigger] digit_value(
                    q[k],
                    radix as int,
                )) is Some by {
                    if k < p.len() {
                        assert(q[k] == p[k]);
                    }
                }
                if overflow {
                    proof {
                        lemma_digits_grow(digits_value(p, radix as int), radix as int, v as int, max as int);
                    }
                } else {
                    assert(acc * (radix as u64) <= 0xFFFF_FFFFu64 * 16) by (nonlinear_arith)
                        requires
                            acc <= 0xFFFF_FFFFu64,
                            radix <= 16,
                    ;
                    let next: u64 = acc * (radix as u64) + (v as u64);
                    if next > max as u64 {
                        overflow = true;
                    } else {
                        acc = next;
                    }
                }
            },
        }
        i = i + 1;
    }
    assert(s@.subrange(start as int, n as int) =~= d);
    if overflow {
        None
    } else {
        Some(acc as u32)
    }
}

/// Parse a u32 as `u32::from_str` does.
pub fn parse_u32(s: &str) -> (r: Option<u32>)
    ensures
        r matches Some(v) ==> parse_unsigned(s@, 10, u32::MAX as int) == Some(v as int),
        r is None ==> parse_unsigned(s@, 10, u32::MAX as int) is None,
{
    parse_unsigned_str(s, 10, u32::MAX)
}

/// Parse a u8 as `u8::from_str` does.
pub fn parse_u8(s: &str) -> (r: Option<u8>)
    ensures
        r matches Some(v) ==> parse_unsigned(s@, 10, u8::MAX as int) == Some(v as int),
        r is None ==> parse_unsigned(s@, 10, u8::MAX as int) is None,
{
    match parse_unsigned_str(s, 10, 255) {
        Some(v) => Some(v as u8),
        None => None,
    }
}

/// Parse a u16 in hexadecimal as `u16::from_str_radix(s, 16)` does.
pub fn parse_hex_u16(s: &str) -> (r: Option<u16>)
    ensures
        r matches Some(v) ==> parse_unsigned(s@, 16, u16::MAX as int) == Some(v as int),
        r is None ==> parse_unsigned(s@, 16, u16::MAX as int) is None,
{
    match parse_unsigned_str(s, 16, 0xFFFF) {
        Some(v) => Some(v as u16),
        None => None,
    }
}


proof fn lemma_digit_char(d: nat)
    requires
        d < 10,
    ensures
        digit_value(digit_char(d), 10) == Some(d as int),
        digit_char(d) != '+',
{
    assert((d + 48) as char as int == d + 48);
}

proof fn lemma_hex_char(d: nat)
    requires
        d < 16,
    ensures
        digit_value(hex_char(d), 16) == Some(d as int),
{
    if d < 10 {
        assert((d + 48) as char as int == d + 48);
    } else {
        assert((d + 55) as char as int == d + 55);
    }
}

pub(crate) proof fn lemma_decimal_digits(n: nat)
    ensures
        decimal(n).len() > 0,
        decimal(n)[0] != '+',
        all_digits(decimal(n), 10),
        digits_value(decimal(n), 10) == n,
    decreases n,
{
    lemma_digit_char(n % 10);
    if n < 10 {
        lemma_digit_char(n);
        let q = decimal(n);
        assert(q =~= seq![digit_char(n)]);
        assert(q.drop_last() =~= Seq::<char>::empty());
        assert(digits_value(q.drop_last(), 10) == 0);
    }
    if n >= 10 {
        lemma_decimal_digits(n / 10);
        let p = decimal(n / 10);
        let q = p.push(digit_char(n % 10));
        assert(q.drop_last() =~= p);
        assert(decimal(n) == q);
        assert(q.last() == digit_char(n % 10));
        assert(digits_value(q, 10) == digits_value(p, 10) * 10 + (n % 10));
        assert((n / 10) * 10 + n % 10 == n);
        assert forall|i: int| 0 <= i < q.len() implies (#[trigger] digit_value(q[i], 10)) is Some by {
            if i < p.len() {
                assert(q[i] == p[i]);
            }
        }
    }
}

/// The decimal text of a number parses back to that number (as
/// `u32::from_str` does).
pub proof fn lemma_decimal_roundtrip(v: u32)
    ensures
        parse_unsigned(decimal(v as nat), 10, u32::MAX as int) == Some(v as int),
{
    lemma_decimal_digits(v as nat);
}

/// A data tag is shown as exactly four hexadecimal digits, upper case
/// (`{:04X}`): each is '0'-'9' or 'A'-'F', the most significant first.
pub proof fn lemma_hex4_digits(v: u16)
    ensures
        hex4(v).len() == 4,
        forall|i: int|
            0 <= i < 4 ==> ('0' <= #[trigger] hex4(v)[i] <= '9' || 'A' <= hex4(v)[i] <= 'F'),
        hex4(v)[0] == hex_char((v / 0x1000) as nat),
        hex4(v)[3] == hex_char((v % 16) as nat),
{
    let a = (v / 0x100) as u8;
    let b = (v % 0x100) as u8;
    assert((a / 16) as nat == (v / 0x1000) as nat);
    assert((b % 16) as nat == (v % 16) as nat);
}

/// The four-digit hexadecimal text of a data tag parses back to the tag (as
/// `u16::from_str_radix(_, 16)` does).
pub proof fn lemma_hex4_roundtrip(v: u16)
    ensures
        parse_unsigned(hex4(v), 16, u16::MAX as int) == Some(v as int),
{
    let h = hex4(v);
    let a = (v / 0x100) as u8;
    let b = (v % 0x100) as u8;
    lemma_hex_char((a / 16) as nat);
    lemma_hex_char((a % 16) as nat);
    lemma_hex_char((b / 16) as nat);
    lemma_hex_char((b % 16) as nat);
    reveal_with_fuel(digits_value, 5);
    assert(h.len() == 4);
    assert(h[0] == hex_char((a / 16) as nat));
    assert(h[1] == hex_char((a % 16) as nat));
    assert(h[2] == hex_char((b / 16) as nat));
    assert(h[3] == hex_char((b % 16) as nat));
    assert(unsigned_digits(h) == h);
    assert(all_digits(h, 16));
    assert(h.drop_last().drop_last().drop_last().drop_last().len() == 0);
    assert(digits_value(h, 16) == (((a / 16) * 16 + a % 16) * 16 + b / 16) * 16 + b % 16) by {
        assert(h.drop_last().drop_last().drop_last().drop_last() =~= Seq::<char>::empty());
        assert(h.drop_last().drop_last().drop_last().last() == h[0]);
        assert(h.drop_last().drop_last().last() == h[1]);
        assert(h.drop_last().last() == h[2]);
        assert(h.last() == h[3]);
    }
}


/// Whether a character has the Unicode White_Space property, which is what
/// `char::is_whitespace` tests.
pub open spec fn is_white_space(c: char) -> bool {
    let v = c as int;
    (0x09 <= v <= 0x0D) || v == 0x20 || v == 0x85 || v == 0xA0 || v == 0x1680 || (0x2000 <= v
        <= 0x200A) || v == 0x2028 || v == 0x2029 || v == 0x202F || v == 0x205F || v == 0x3000
}

/// Whether a character is white space (`char::is_whitespace`).
pub fn is_whitespace_char(c: char) -> (b: bool)
    ensures
        b == is_white_space(c),
{
    let v = c as u32;
    (0x09 <= v && v <= 0x0D) || v == 0x20 || v == 0x85 || v == 0xA0 || v == 0x1680 || (0x2000 <= v
        && v <= 0x200A) || v == 0x2028 || v == 0x2029 || v == 0x202F || v == 0x205F || v == 0x3000
}

/// The index of the first character of `s` that is not white space (its
/// length when there is none).
pub open spec fn leading_ws(s: Seq<char>) -> int
    decreases s.len(),
{
    if s.len() == 0 {
        0
    } else if is_white_space(s[0]) {
        1 + leading_ws(s.drop_first())
    } else {
        0
    }
}

/// The length of `s` without its trailing white space.
pub open spec fn trailing_end(s: Seq<char>) -> int
    decreases s.len(),
{
    if s.len() == 0 {
        0
    } else if is_white_space(s.last()) {
        trailing_end(s.drop_last())
    } else {
        s.len() as int
    }
}

/// `s` without leading and trailing white space, as `str::trim` gives it.
pub open spec fn trimmed(s: Seq<char>) -> Seq<char> {
    let a = leading_ws(s);
    let b = trailing_end(s);
    if a >= b {
        Seq::empty()
    } else {
        s.subrange(a, b)
    }
}

pub(crate) proof fn lemma_leading_ws(s: Seq<char>, i: int)
    requires
        0 <= i <= s.len(),
        forall|j: int| 0 <= j < i ==> is_white_space(#[trigger] s[j]),
        i == s.len() || !is_white_space(s[i]),
    ensures
        leading_ws(s) == i,
    decreases s.len(),
{
    if s.len() > 0 && i > 0 {
        let t = s.drop_first();
        assert forall|j: int| 0 <= j < i - 1 implies is_white_space(#[trigger] t[j]) by {
            assert(t[j] == s[j + 1]);
            assert(is_white_space(s[j + 1]));
        }
        assert(is_white_space(s[0]));
        lemma_leading_ws(t, i - 1);
    }
}

pub(crate) proof fn lemma_trailing_end(s: Seq<char>, k: int)
    requires
        0 <= k <= s.len(),
        forall|j: int| k <= j < s.len() ==> is_white_space(#[trigger] s[j]),
        k == 0 || !is_white_space(s[k - 1]),
    ensures
        trailing_end(s) == k,
    decreases s.len(),
{
    if s.len() > 0 && k < s.len() {
        let t = s.drop_last();
        assert forall|j: int| k <= j < t.len() implies is_white_space(#[trigger] t[j]) by {
            assert(t[j] == s[j]);
        }
        assert(is_white_space(s[s.len() - 1]));
        lemma_trailing_end(t, k);
    }
}

/// `s` without leading and trailing white space (`str::trim`).
pub fn trim(s: &str) -> (r: &str)
    ensures
        r@ == trimmed(s@),
{
    let n = s.unicode_len();
    let mut a: usize = 0;
    while a < n && is_whitespace_char(s.get_char(a))
        invariant
            n == s@.len(),
            a <= n,
            forall|j: int| 0 <= j < a ==> is_white_space(#[trigger] s@[j]),
        decreases n - a,
    {
        a = a + 1;
    }
    proof {
        lemma_leading_ws(s@, a as int);
    }
    if a == n {
        proof {
            lemma_trailing_end(s@, 0);
        }
        return s.substring_char(0, 0);
    }
    let mut b: usize = n;
    while b > a && is_whitespace_char(s.get_char(b - 1))
        invariant
            n == s@.len(),
            a < n,
            !is_white_space(s@[a as int]),
            a <= b <= n,
            forall|j: int| b <= j < n ==> is_white_space(#[trigger] s@[j]),
        decreases b,
    {
        b = b - 1;
    }
    proof {
        lemma_trailing_end(s@, b as int);
    }
    s.substring_char(a, b)
}

/// Parse a data tag typed in hexadecimal: the trimmed text read as
/// `u16::from_str_radix(_, 16)` does.
pub fn parse_data_tag(s: &str) -> (r: Option<u16>)
    ensures
        r matches Some(v) ==> parse_unsigned(trimmed(s@), 16, u16::MAX as int) == Some(v as int),
        r is None ==> parse_unsigned(trimmed(s@), 16, u16::MAX as int) is None,
{
    parse_hex_u16(trim(s))
}

/// The view of each text of a list.
pub open spec fn texts(v: Seq<String>) -> Seq<Seq<char>> {
    v.map_values(|s: String| s@)
}

/// The line "key = value" of an exported configuration.
pub open spec fn key_value_line(key: Seq<char>, value: Seq<char>) -> Seq<char> {
    key + " = "@ + value
}

fn push_line(lines: &mut Vec<String>, key: &str, value: &str)
    ensures
        texts(final(lines)@) == texts(old(lines)@).push(key_value_line(key@, value@)),
{
    let mut line = String::from_str(key);
    line.append(" = ");
    line.append(value);
    lines.push(line);
    assert(texts(final(lines)@) =~= texts(old(lines)@).push(key_value_line(key@, value@)));
}

/// Append "key = value" (value in decimal) when a value is present.
pub fn write_opt_u32(lines: &mut Vec<String>, key: &str, val: Option<u32>)
    ensures
        texts(final(lines)@) == (match val {
            Some(v) => texts(old(lines)@).push(key_value_line(key@, decimal(v as nat))),
            None => texts(old(lines)@),
        }),
{
    if let Some(v) = val {
        let text = format_decimal(v);
        push_line(lines, key, text.as_str());
    }
}

/// Append "key = value" (value in decimal) when a value is present.
pub fn write_opt_u8(lines: &mut Vec<String>, key: &str, val: Option<u8>)
    ensures
        texts(final(lines)@) == (match val {
            Some(v) => texts(old(lines)@).push(key_value_line(key@, decimal(v as nat))),
            None => texts(old(lines)@),
        }),
{
    if let Some(v) = val {
        let text = format_decimal(v as u32);
        push_line(lines, key, text.as_str());
    }
}

/// Append "key = value" when a value is present.
pub fn write_opt_str(lines: &mut Vec<String>, key: &str, val: Option<&str>)
    ensures
        texts(final(lines)@) == (match val {
            Some(v) => texts(old(lines)@).push(key_value_line(key@, v@)),
            None => texts(old(lines)@),
        }),
{
    if let Some(v) = val {
        push_line(lines, key, v);
    }
}


/// `s` with every occurrence of `pat` (non-empty) replaced by `rep`, matches
/// taken from left to right without overlap, as `str::replace` does.
pub open spec fn replace_all(s: Seq<char>, pat: Seq<char>, rep: Seq<char>) -> Seq<char>
    decreases s.len(),
{
    if pat.len() == 0 || s.len() < pat.len() {
        s
    } else if s.take(pat.len() as int) == pat {
        rep + replace_all(s.skip(pat.len() as int), pat, rep)
    } else {
        seq![s[0]] + replace_all(s.drop_first(), pat, rep)
    }
}

pub(crate) fn chars_of(s: &str) -> (r: Vec<char>)
    ensures
        r@ == s@,
{
    let n = s.unicode_len();
    let mut r: Vec<char> = Vec::new();
    for c in it: s.chars()
        invariant
            r@ == it.seq().take(it.index() as int),
    {
        r.push(c);
    }
    r
}


/// The JSON text with every "e308" written as "e+308", the exponent form
/// that the B24 Toolkit app writes for `f64::MAX`.
pub fn fix_exponent_format(json: String) -> (r: String)
    ensures
        r@ == replace_all(json@, "e308"@, "e+308"@),
{
    let cs = chars_of(json.as_str());
    let n = cs.len();
    let ghost pat = "e308"@;
    let ghost rep = "e+308"@;
    proof {
        reveal_strlit("e308");
        reveal_strlit("e+308");
    }
    let mut out = String::new();
    let mut i: usize = 0;
    assert(cs@.skip(0) =~= cs@);
    while i < n
        invariant
            n == cs@.len(),
            i <= n,
            cs@ == json@,
            pat == "e308"@,
            rep == "e+308"@,
            pat =~= seq!['e', '3', '0', '8'],
            rep =~= seq!['e', '+', '3', '0', '8'],
            replace_all(json@, pat, rep) == out@ + replace_all(cs@.skip(i as int), pat, rep),
        decreases n - i,
    {
        let ghost rest = cs@.skip(i as int);
        if n - i >= 4 && cs[i] == 'e' && cs[i + 1] == '3' && cs[i + 2] == '0' && cs[i + 3] == '8' {
            assert(rest.take(4) =~= pat);
            assert(rest.skip(4) =~= cs@.skip(i + 4));
            out.append("e+308");
            i = i + 4;
        } else {
            assert(rest.len() < 4 || rest.take(4) != pat) by {
                if rest.len() >= 4 && rest.take(4) == pat {
                    assert(rest.take(4)[0] == cs@[i as int]);
                    assert(rest.take(4)[1] == cs@[i + 1]);
                    assert(rest.take(4)[2] == cs@[i + 2]);
                    assert(rest.take(4)[3] == cs@[i + 3]);
                }
            }
            assert(rest.drop_first() =~= cs@.skip(i + 1));
            push_char(&mut out, cs[i]);
            i = i + 1;
        }
    }
    assert(cs@.skip(n as int) =~= Seq::<char>::empty());
    assert(out@ =~= replace_all(json@, pat, rep));
    out
}


/// What `str::to_lowercase` makes of a text (Unicode lowercase mapping).
pub uninterp spec fn lowercase(s: Seq<char>) -> Seq<char>;

/// Calls `str::to_lowercase`. Claimed: the result is `lowercase` of the
/// text, a function of the text alone.
#[verifier::external_body]
pub(crate) fn to_lowercase_text(s: &str) -> (r: String)
    ensures
        r@ == lowercase(s@),
{
    s.to_lowercase()
}

/// `s` with every character `from` replaced by `to`.
pub open spec fn replace_char(s: Seq<char>, from: char, to: char) -> Seq<char> {
    Seq::new(s.len(), |i: int| if s[i] == from { to } else { s[i] })
}

/// The lines of a text: the pieces between '\n' characters.
pub open spec fn split_lines(s: Seq<char>) -> Seq<Seq<char>>
    decreases s.len(),
{
    if s.len() == 0 {
        seq![Seq::<char>::empty()]
    } else {
        let p = split_lines(s.drop_last());
        if s.last() == '\n' {
            p.push(Seq::empty())
        } else {
            p.update(p.len() - 1, p.last().push(s.last()))
        }
    }
}

pub(crate) proof fn lemma_split_lines_nonempty(s: Seq<char>)
    ensures
        split_lines(s).len() >= 1,
    decreases s.len(),
{
    if s.len() > 0 {
        lemma_split_lines_nonempty(s.drop_last());
    }
}

/// The index of the first `c` in `s`, if any.
pub open spec fn find_char(s: Seq<char>, c: char) -> Option<int>
    decreases s.len(),
{
    if s.len() == 0 {
        None
    } else if s[0] == c {
        Some(0)
    } else {
        match find_char(s.drop_first(), c) {
            Some(i) => Some(i + 1),
            None => None,
        }
    }
}

/// A key of the configuration text format: trimmed, lowercased, spaces
/// written as '_'.
pub open spec fn normalize_key(k: Seq<char>) -> Seq<char> {
    replace_char(lowercase(trimmed(k)), ' ', '_')
}

/// The key and value of one line of the configuration text format: none for
/// a blank line, a comment ('#'), a section header ('[') or a line without
/// '='; else the normalized key before the first '=' and the trimmed value
/// after it.
pub open spec fn line_pair(line: Seq<char>) -> Option<(Seq<char>, Seq<char>)> {
    let t = trimmed(line);
    if t.len() == 0 || t[0] == '#' || t[0] == '[' {
        None
    } else {
        match find_char(t, '=') {
            Some(i) => Some((normalize_key(t.take(i)), trimmed(t.skip(i + 1)))),
            None => None,
        }
    }
}

/// The key/value pairs of a list of lines, in order.
pub open spec fn lines_pairs(lines: Seq<Seq<char>>) -> Seq<(Seq<char>, Seq<char>)>
    decreases lines.len(),
{
    if lines.len() == 0 {
        Seq::empty()
    } else {
        let p = lines_pairs(lines.drop_last());
        match line_pair(lines.last()) {
            Some(kv) => p.push(kv),
            None => p,
        }
    }
}

/// The key/value pairs of a configuration text, in order.
pub open spec fn config_pairs(text: Seq<char>) -> Seq<(Seq<char>, Seq<char>)> {
    lines_pairs(split_lines(text))
}

/// The views of a list of key/value pairs.
pub open spec fn pair_texts(v: Seq<(String, String)>) -> Seq<(Seq<char>, Seq<char>)> {
    v.map_values(|p: (String, String)| (p.0@, p.1@))
}

pub(crate) fn string_of_chars(cs: &Vec<char>) -> (s: String)
    ensures
        s@ == cs@,
{
    let mut s = String::new();
    let mut i: usize = 0;
    while i < cs.len()
        invariant
            i <= cs@.len(),
            s@ == cs@.take(i as int),
        decreases cs@.len() - i,
    {
        push_char(&mut s, cs[i]);
        i = i + 1;
        assert(s@ =~= cs@.take(i as int));
    }
    assert(cs@.take(cs@.len() as int) =~= cs@);
    s
}

pub(crate) fn replace_spaces_text(s: &str) -> (r: String)
    ensures
        r@ == replace_char(s@, ' ', '_'),
{
    let cs = chars_of(s);
    let mut out: Vec<char> = Vec::new();
    let mut i: usize = 0;
    while i < cs.len()
        invariant
            i <= cs@.len(),
            cs@ == s@,
            out@ == replace_char(s@.take(i as int), ' ', '_'),
        decreases cs@.len() - i,
    {
        if cs[i] == ' ' {
            out.push('_');
        } else {
            out.push(cs[i]);
        }
        i = i + 1;
        assert(out@ =~= replace_char(s@.take(i as int), ' ', '_'));
    }
    assert(s@.take(cs@.len() as int) =~= s@);
    string_of_chars(&out)
}

/// The key/value pair of one line of the configuration text format.
pub fn parse_config_line(line: &str) -> (r: Option<(String, String)>)
    ensures
        r matches Some(p) ==> line_pair(line@) == Some((p.0@, p.1@)),
        r is None ==> line_pair(line@) is None,
{
    let t = trim(line);
    let n = t.unicode_len();
    if n == 0 {
        return None;
    }
    let c0 = t.get_char(0);
    if c0 == '#' || c0 == '[' {
        return None;
    }
    let mut i: usize = 0;
    while i < n && t.get_char(i) != '='
        invariant
            n == t@.len(),
            i <= n,
            forall|j: int| 0 <= j < i ==> t@[j] != '=',
        decreases n - i,
    {
        i = i + 1;
    }
    proof {
        lemma_find_char(t@, '=', i as int);
    }
    if i == n {
        return None;
    }
    let key_raw = t.substring_char(0, i);
    let key_trim = trim(key_raw);
    let key_low = to_lowercase_text(key_trim);
    let key = replace_spaces_text(key_low.as_str());
    let val_raw = t.substring_char(i + 1, n);
    let val = String::from_str(trim(val_raw));
    assert(t@.skip(i + 1) =~= t@.subrange(i + 1, n as int));
    assert(t@.take(i as int) =~= t@.subrange(0, i as int));
    Some((key, val))
}

pub(crate) proof fn lemma_find_char(s: Seq<char>, c: char, i: int)
    requires
        0 <= i <= s.len(),
        forall|j: int| 0 <= j < i ==> s[j] != c,
        i == s.len() || s[i] == c,
    ensures
        i == s.len() ==> find_char(s, c) is None,
        i < s.len() ==> find_char(s, c) == Some(i),
    decreases s.len(),
{
    if s.len() > 0 && i > 0 {
        let t = s.drop_first();
        assert forall|j: int| 0 <= j < i - 1 implies t[j] != c by {
            assert(t[j] == s[j + 1]);
        }
        if i < s.len() {
            assert(t[i - 1] == s[i]);
        }
        assert(s[0] != c);
        lemma_find_char(t, c, i - 1);
    }
}

/// The index of the first `c` in `t`, if any.
pub(crate) fn char_index(t: &str, c: char) -> (r: Option<usize>)
    ensures
        r matches Some(i) ==> i < t@.len() && find_char(t@, c) == Some(i as int),
        r is None ==> find_char(t@, c) is None,
{
    let n = t.unicode_len();
    let mut i: usize = 0;
    while i < n && t.get_char(i) != c
        invariant
            n == t@.len(),
            i <= n,
            forall|j: int| 0 <= j < i ==> t@[j] != c,
        decreases n - i,
    {
        i = i + 1;
    }
    proof {
        lemma_find_char(t@, c, i as int);
    }
    if i == n {
        None
    } else {
        Some(i)
    }
}

fn push_line_pair(pairs: &mut Vec<(String, String)>, line: &Vec<char>)
    ensures
        pair_texts(final(pairs)@) == (match line_pair(line@) {
            Some(kv) => pair_texts(old(pairs)@).push(kv),
            None => pair_texts(old(pairs)@),
        }),
{
    let s = string_of_chars(line);
    match parse_config_line(s.as_str()) {
        Some(p) => {
            pairs.push(p);
            assert(pair_texts(final(pairs)@) =~= pair_texts(old(pairs)@).push(line_pair(line@)->0));
        },
        None => {},
    }
}

/// The key/value pairs of a configuration exported as text
/// ("key = value" lines; blank lines, '#' comments and '[' section headers
/// are skipped), in order.
pub fn parse_config_text(text: &str) -> (pairs: Vec<(String, String)>)
    ensures
        pair_texts(pairs@) == config_pairs(text@),
{
    let cs = chars_of(text);
    let n = cs.len();
    let mut pairs: Vec<(String, String)> = Vec::new();
    let mut cur: Vec<char> = Vec::new();
    let mut i: usize = 0;
    proof {
        lemma_split_lines_nonempty(Seq::empty());
    }
    assert(text@.take(0) =~= Seq::<char>::empty());
    while i < n
        invariant
            n == cs@.len(),
            cs@ == text@,
            i <= n,
            split_lines(text@.take(i as int)).last() == cur@,
            pair_texts(pairs@) == lines_pairs(split_lines(text@.take(i as int)).drop_last()),
        decreases n - i,
    {
        let c = cs[i];
        let ghost pre = text@.take(i as int);
        let ghost next = text@.take(i + 1);
        assert(next.drop_last() =~= pre);
        assert(next.last() == c);
        proof {
            lemma_split_lines_nonempty(pre);
        }
        if c == '\n' {
            push_line_pair(&mut pairs, &cur);
            cur = Vec::new();
            let ghost p = split_lines(pre);
            assert(split_lines(next) == p.push(Seq::empty()));
            assert(split_lines(next).drop_last() =~= p);
            assert(p == p.drop_last().push(p.last()));
            assert(lines_pairs(p) == (match line_pair(p.last()) {
                Some(kv) => lines_pairs(p.drop_last()).push(kv),
                None => lines_pairs(p.drop_last()),
            }));
        } else {
            cur.push(c);
            let ghost p = split_lines(pre);
            let ghost q = split_lines(next);
            assert(q == p.update(p.len() - 1, p.last().push(c)));
            assert(q.drop_last() =~= p.drop_last());
        }
        i = i + 1;
    }
    assert(text@.take(n as int) =~= text@);
    proof {
        lemma_split_lines_nonempty(text@);
        let p = split_lines(text@);
        assert(p == p.drop_last().push(p.last()));
    }
    push_line_pair(&mut pairs, &cur);
    pairs
}

/// The value of the last pair with a given key, if any (a later line
/// overrides an earlier one).
pub open spec fn pair_value(pairs: Seq<(Seq<char>, Seq<char>)>, key: Seq<char>) -> Option<Seq<char>>
    decreases pairs.len(),
{
    if pairs.len() == 0 {
        None
    } else if pairs.last().0 == key {
        Some(pairs.last().1)
    } else {
        pair_value(pairs.drop_last(), key)
    }
}

/// The value of the last pair with a given key, if any.
pub fn config_value(pairs: &Vec<(String, String)>, key: &str) -> (r: Option<String>)
    ensures
        r matches Some(v) ==> pair_value(pair_texts(pairs@), key@) == Some(v@),
        r is None ==> pair_value(pair_texts(pairs@), key@) is None,
{
    let key_s = String::from_str(key);
    let mut i: usize = pairs.len();
    assert(pairs@.take(i as int) =~= pairs@);
    while i > 0
        invariant
            i <= pairs@.len(),
            key_s@ == key@,
            pair_value(pair_texts(pairs@), key@) == pair_value(pair_texts(pairs@.take(i as int)), key@),
        decreases i,
    {
        let ghost t = pair_texts(pairs@.take(i as int));
        assert(pair_texts(pairs@.take(i - 1)) =~= t.drop_last());
        assert(t.last() == (pairs@[i - 1].0@, pairs@[i - 1].1@));
        if pairs[i - 1].0 == key_s {
            return Some(pairs[i - 1].1.clone());
        }
        i = i - 1;
    }
    None
}

} // verus!
