//! Big-endian register codecs and advertising-packet decoding.

use vstd::prelude::*;
use vstd::utf8::{
    char_is_scalar, char_u32_cast, decode_utf8, encode_scalar, encode_utf8, encode_utf8_decode_utf8,
    encode_utf8_valid_utf8, is_scalar, valid_utf8,
};
use vstd::string::StringSliceAdditionalSpecFns;

verus! {

/// Error produced when a register value has too few bytes.
#[derive(Debug, Clone, Copy, PartialEq, Eq, Structural)]
pub enum CodecError {
    InvalidLength { expected: usize, got: usize },
}

/// The value of two bytes read as a big-endian unsigned integer.
pub open spec fn be16(b0: u8, b1: u8) -> int {
    b0 * 0x100 + b1
}

/// The value of four bytes read as a big-endian unsigned integer.
pub open spec fn be32(b0: u8, b1: u8, b2: u8, b3: u8) -> int {
    b0 * 0x100_0000 + b1 * 0x1_0000 + b2 * 0x100 + b3
}

/// The four big-endian bytes of a 32-bit value.
pub open spec fn be32_bytes(v: u32) -> Seq<u8> {
    seq![(v / 0x100_0000) as u8, ((v / 0x1_0000) % 0x100) as u8, ((v / 0x100) % 0x100) as u8, (v % 0x100) as u8]
}

/// The two big-endian bytes of a 16-bit value.
pub open spec fn be16_bytes(v: u16) -> Seq<u8> {
    seq![(v / 0x100) as u8, (v % 0x100) as u8]
}

/// Decode a big-endian u32 from the first four bytes of `data`.
pub fn decode_u32_be(data: &[u8]) -> (r: Result<u32, CodecError>)
    ensures
        data@.len() >= 4 ==> r == Ok::<u32, CodecError>(
            be32(data@[0], data@[1], data@[2], data@[3]) as u32,
        ),
        data@.len() < 4 ==> r == Err::<u32, CodecError>(
            CodecError::InvalidLength { expected: 4, got: data@.len() as usize },
        ),
{
    if data.len() < 4 {
        return Err(CodecError::InvalidLength { expected: 4, got: data.len() });
    }
    let v: u32 = (data[0] as u32) * 0x100_0000 + (data[1] as u32) * 0x1_0000 + (data[2] as u32)
        * 0x100 + (data[3] as u32);
    Ok(v)
}

/// Encode a u32 as four big-endian bytes.
pub fn encode_u32_be(value: u32) -> (r: Vec<u8>)
    ensures
        r@ == be32_bytes(value),
{
    let mut r: Vec<u8> = Vec::new();
    r.push((value / 0x100_0000) as u8);
    r.push(((value / 0x1_0000) % 0x100) as u8);
    r.push(((value / 0x100) % 0x100) as u8);
    r.push((value % 0x100) as u8);
    r
}

/// Decode a big-endian u16 from the first two bytes of `data`.
pub fn decode_u16_be(data: &[u8]) -> (r: Result<u16, CodecError>)
    ensures
        data@.len() >= 2 ==> r == Ok::<u16, CodecError>(be16(data@[0], data@[1]) as u16),
        data@.len() < 2 ==> r == Err::<u16, CodecError>(
            CodecError::InvalidLength { expected: 2, got: data@.len() as usize },
        ),
{
    if data.len() < 2 {
        return Err(CodecError::InvalidLength { expected: 2, got: data.len() });
    }
    let v: u16 = (data[0] as u16) * 0x100 + (data[1] as u16);
    Ok(v)
}

/// Encode a u16 as two big-endian bytes.
pub fn encode_u16_be(value: u16) -> (r: Vec<u8>)
    ensures
        r@ == be16_bytes(value),
{
    let mut r: Vec<u8> = Vec::new();
    r.push((value / 0x100) as u8);
    r.push((value % 0x100) as u8);
    r
}

/// Decode a u8 from the first byte of `data`.
pub fn decode_u8(data: &[u8]) -> (r: Result<u8, CodecError>)
    ensures
        data@.len() >= 1 ==> r == Ok::<u8, CodecError>(data@[0]),
        data@.len() == 0 ==> r == Err::<u8, CodecError>(
            CodecError::InvalidLength { expected: 1, got: 0 },
        ),
{
    if data.len() == 0 {
        return Err(CodecError::InvalidLength { expected: 1, got: 0 });
    }
    Ok(data[0])
}

/// Encode a u8 as a single byte.
pub fn encode_u8(value: u8) -> (r: Vec<u8>)
    ensures
        r@ == seq![value],
{
    let mut r: Vec<u8> = Vec::new();
    r.push(value);
    r
}

/// Decoding what was encoded gives the value back (u32).
pub proof fn lemma_u32_roundtrip(v: u32)
    ensures
        be32(be32_bytes(v)[0], be32_bytes(v)[1], be32_bytes(v)[2], be32_bytes(v)[3]) == v,
{
}

/// Decoding what was encoded gives the value back (u16).
pub proof fn lemma_u16_roundtrip(v: u16)
    ensures
        be16(be16_bytes(v)[0], be16_bytes(v)[1]) == v,
{
}


/// Register values travel most significant byte first: the four bytes of a
/// u32 are its bits 31-24, 23-16, 15-8 and 7-0, the two bytes of a u16 its
/// bits 15-8 and 7-0.
pub proof fn lemma_big_endian_order(v: u32, w: u16)
    ensures
        be32_bytes(v) == seq![(v >> 24) as u8, ((v >> 16) & 0xff) as u8, ((v >> 8) & 0xff) as u8, (v & 0xff) as u8],
        be16_bytes(w) == seq![(w >> 8) as u8, (w & 0xff) as u8],
{
    assert(v / 0x100_0000 == v >> 24) by (bit_vector);
    assert((v / 0x1_0000) % 0x100 == (v >> 16) & 0xff) by (bit_vector);
    assert((v / 0x100) % 0x100 == (v >> 8) & 0xff) by (bit_vector);
    assert(v % 0x100 == v & 0xff) by (bit_vector);
    assert(w / 0x100 == w >> 8) by (bit_vector);
    assert(w % 0x100 == w & 0xff) by (bit_vector);
    assert(be32_bytes(v) =~= seq![(v >> 24) as u8, ((v >> 16) & 0xff) as u8, ((v >> 8) & 0xff) as u8, (v & 0xff) as u8]);
    assert(be16_bytes(w) =~= seq![(w >> 8) as u8, (w & 0xff) as u8]);
}

/// Index of the first zero byte of `s`, or its length when it holds none.
pub open spec fn first_nul(s: Seq<u8>) -> int
    decreases s.len(),
{
    if s.len() == 0 {
        0
    } else if s[0] == 0 {
        0
    } else {
        1 + first_nul(s.drop_first())
    }
}

/// The text that `String::from_utf8_lossy` makes of `bytes`: invalid UTF-8
/// sequences become U+FFFD.
pub uninterp spec fn utf8_lossy(bytes: Seq<u8>) -> Seq<char>;

/// Calls `String::from_utf8_lossy` and takes the result as an owned `String`.
/// Claimed: the result is `utf8_lossy` of the bytes, and for valid UTF-8 it is
/// exactly the decoded text (the documented no-op case).
#[verifier::external_body]
fn string_from_utf8_lossy(bytes: &[u8]) -> (r: String)
    ensures
        r@ == utf8_lossy(bytes@),
        valid_utf8(bytes@) ==> r@ == decode_utf8(bytes@),
{
    String::from_utf8_lossy(bytes).to_string()
}

proof fn lemma_first_nul(s: Seq<u8>, i: int)
    requires
        0 <= i <= s.len(),
        forall|j: int| 0 <= j < i ==> s[j] != 0,
    ensures
        i <= first_nul(s) <= s.len(),
        first_nul(s) < s.len() ==> s[first_nul(s)] == 0,
        forall|j: int| 0 <= j < first_nul(s) ==> s[j] != 0,
    decreases s.len(),
{
    if s.len() > 0 && s[0] != 0 {
        let t = s.drop_first();
        assert forall|j: int| 0 <= j < i - 1 implies t[j] != 0 by {
            assert(t[j] == s[j + 1]);
        }
        if i > 0 {
            lemma_first_nul(t, i - 1);
        } else {
            lemma_first_nul(t, 0);
        }
        assert forall|j: int| 0 <= j < first_nul(s) implies s[j] != 0 by {
            if j > 0 {
                assert(s[j] == t[j - 1]);
            }
        }
    }
}

/// Decode a null-terminated string from BLE data: the bytes up to the first
/// zero byte (or all of them), with invalid UTF-8 replaced.
pub fn decode_string(data: &[u8]) -> (r: String)
    ensures
        r@ == utf8_lossy(data@.take(first_nul(data@))),
        valid_utf8(data@.take(first_nul(data@))) ==> r@ == decode_utf8(
            data@.take(first_nul(data@)),
        ),
{
    let mut prefix: Vec<u8> = Vec::new();
    let mut i: usize = 0;
    while i < data.len() && data[i] != 0
        invariant
            i <= data@.len(),
            forall|j: int| 0 <= j < i ==> data@[j] != 0,
            prefix@ == data@.take(i as int),
        decreases data@.len() - i,
    {
        prefix.push(data[i]);
        i = i + 1;
        assert(prefix@ =~= data@.take(i as int));
    }
    proof {
        lemma_first_nul(data@, i as int);
    }
    string_from_utf8_lossy(prefix.as_slice())
}

/// A null-terminated field of `pad_to` bytes holding `bytes`: at most
/// `pad_to - 1` of them, then zeros to the end, so that a field of any
/// length ends with a zero.
pub open spec fn padded(bytes: Seq<u8>, pad_to: nat) -> Seq<u8> {
    Seq::new(pad_to, |i: int| if i < bytes.len() && i + 1 < pad_to { bytes[i] } else { 0u8 })
}

/// Encode a string as a null-terminated field of `pad_to` bytes: its UTF-8
/// bytes, cut to leave room for the terminating zero, then zero padding.
pub fn encode_string(s: &str, pad_to: usize) -> (r: Vec<u8>)
    ensures
        r@ == padded(s.spec_bytes(), pad_to as nat),
        pad_to > 0 ==> r@[pad_to - 1] == 0,
{
    let bytes = s.as_bytes();
    let mut r: Vec<u8> = Vec::new();
    let mut i: usize = 0;
    while i < pad_to
        invariant
            i <= pad_to,
            bytes@ == s.spec_bytes(),
            r@ == padded(s.spec_bytes(), pad_to as nat).take(i as int),
        decreases pad_to - i,
    {
        if i < bytes.len() && i + 1 < pad_to {
            r.push(bytes[i]);
        } else {
            r.push(0u8);
        }
        i = i + 1;
        assert(r@ =~= padded(s.spec_bytes(), pad_to as nat).take(i as int));
    }
    assert(r@ =~= padded(s.spec_bytes(), pad_to as nat));
    r
}


/// Default XOR seed for advertising packet decoding.
pub const XOR_SEED: [u8; 10] = [0x5C, 0x6F, 0x2F, 0x41, 0x21, 0x7A, 0x26, 0x45, 0x5C, 0x6F];

/// The effective seed for a View PIN given by its bytes: the default seed,
/// each byte XORed with the PIN's bytes repeated cyclically (unchanged for an
/// empty PIN).
pub open spec fn xor_seed_for(pin: Seq<u8>) -> Seq<u8> {
    Seq::new(
        10,
        |i: int|
            if pin.len() == 0 {
                XOR_SEED@[i]
            } else {
                XOR_SEED@[i] ^ pin[i % (pin.len() as int)]
            },
    )
}

/// Compute the effective XOR seed given a View PIN string.
pub fn compute_xor_seed(view_pin: &str) -> (seed: [u8; 10])
    ensures
        seed@ == xor_seed_for(view_pin.spec_bytes()),
{
    let pin_bytes = view_pin.as_bytes();
    let mut seed: [u8; 10] = XOR_SEED;
    if pin_bytes.len() > 0 {
        let mut i: usize = 0;
        while i < 10
            invariant
                i <= 10,
                pin_bytes@ == view_pin.spec_bytes(),
                pin_bytes@.len() > 0,
                forall|j: int| 0 <= j < i ==> seed@[j] == xor_seed_for(view_pin.spec_bytes())[j],
                forall|j: int| i <= j < 10 ==> seed@[j] == XOR_SEED@[j],
            decreases 10 - i,
        {
            let b = seed[i] ^ pin_bytes[i % pin_bytes.len()];
            seed[i] = b;
            i = i + 1;
        }
    }
    assert(seed@ =~= xor_seed_for(view_pin.spec_bytes()));
    seed
}

/// The bytes of `data` XORed with `seed` repeated cyclically.
pub open spec fn xor_with_seed(data: Seq<u8>, seed: Seq<u8>) -> Seq<u8> {
    Seq::new(data.len(), |i: int| data[i] ^ seed[i % 10])
}

/// XOR-decode/encode advertising data in place.
pub fn xor_advertising(data: &mut [u8], seed: &[u8; 10])
    ensures
        final(data)@ == xor_with_seed(old(data)@, seed@),
{
    let ghost orig = data@;
    let n = data.len();
    let mut i: usize = 0;
    while i < n
        invariant
            n == orig.len(),
            data@.len() == n,
            i <= n,
            forall|j: int| 0 <= j < i ==> data@[j] == orig[j] ^ seed@[j % 10],
            forall|j: int| i <= j < n ==> data@[j] == orig[j],
        decreases n - i,
    {
        let b = data[i] ^ seed[i % 10];
        data[i] = b;
        i = i + 1;
    }
    assert(data@ =~= xor_with_seed(orig, seed@));
}

/// XOR coding is its own inverse: coding twice with the same seed restores
/// the bytes it started from.
pub proof fn lemma_xor_involution(data: Seq<u8>, seed: Seq<u8>)
    requires
        seed.len() == 10,
    ensures
        xor_with_seed(xor_with_seed(data, seed), seed) == data,
{
    assert forall|i: int| 0 <= i < data.len() implies #[trigger] xor_with_seed(
        xor_with_seed(data, seed),
        seed,
    )[i] == data[i] by {
        let a = data[i];
        let b = seed[i % 10];
        assert((a ^ b) ^ b == a) by (bit_vector);
    }
    assert(xor_with_seed(xor_with_seed(data, seed), seed) =~= data);
}

/// Decoded B24 advertising packet data. The reading is carried as the bit
/// pattern of its IEEE 754 single-precision value.
#[derive(Debug, Clone, Copy, PartialEq, Eq, Structural)]
pub struct DecodedAdvert {
    pub data_tag: u16,
    pub status: u8,
    pub units: u8,
    pub value_bits: u32,
}

/// An IEEE 754 single-precision bit pattern is NaN or infinite exactly when
/// its exponent field is all ones.
pub open spec fn is_nan_or_infinite_bits(bits: u32) -> bool {
    (bits / 0x80_0000) % 0x100 == 0xFF
}

/// What a B24 advertising packet decodes to under a View PIN (given by its
/// bytes): `None` when it is shorter than 9 bytes, when the decoded format ID
/// is not 0x01, or when the decoded reading is NaN or infinite.
pub open spec fn decoded_advert(raw: Seq<u8>, pin: Seq<u8>) -> Option<DecodedAdvert> {
    let d = xor_with_seed(raw, xor_seed_for(pin));
    if raw.len() < 9 {
        None
    } else if d[0] != 0x01 {
        None
    } else {
        let bits = be32(d[5], d[6], d[7], d[8]) as u32;
        if is_nan_or_infinite_bits(bits) {
            None
        } else {
            Some(
                DecodedAdvert {
                    data_tag: be16(d[1], d[2]) as u16,
                    status: d[3],
                    units: d[4],
                    value_bits: bits,
                },
            )
        }
    }
}

/// Decode a B24 advertising packet from manufacturer data (key 0x04C3).
///
/// Format after XOR decoding: byte 0 format ID (0x01), bytes 1-2 data tag
/// (u16 BE), byte 3 status, byte 4 units, bytes 5-8 reading (IEEE 754 f32
/// BE). All bytes are XOR-coded with the effective seed (base seed ^ View PIN).
pub fn decode_advertising(raw: &[u8], view_pin: &str) -> (r: Option<DecodedAdvert>)
    ensures
        r == decoded_advert(raw@, view_pin.spec_bytes()),
{
    if raw.len() < 9 {
        return None;
    }
    let mut data: Vec<u8> = vstd::slice::slice_to_vec(raw);
    let seed = compute_xor_seed(view_pin);
    xor_advertising(data.as_mut_slice(), &seed);
    let ghost d = xor_with_seed(raw@, xor_seed_for(view_pin.spec_bytes()));
    assert(data@ == d);
    if data[0] != 0x01 {
        return None;
    }
    let data_tag: u16 = (data[1] as u16) * 0x100 + (data[2] as u16);
    let status = data[3];
    let units = data[4];
    let bits: u32 = (data[5] as u32) * 0x100_0000 + (data[6] as u32) * 0x1_0000 + (data[7] as u32)
        * 0x100 + (data[8] as u32);
    if (bits / 0x80_0000) % 0x100 == 0xFF {
        return None;
    }
    Some(DecodedAdvert { data_tag, status, units, value_bits: bits })
}


/// The 9 plain bytes of a B24 advertising packet: format ID 0x01, data tag
/// (big endian), status, units and reading bits (big endian).
pub open spec fn advert_plain(a: DecodedAdvert) -> Seq<u8> {
    seq![0x01u8] + be16_bytes(a.data_tag) + seq![a.status, a.units] + be32_bytes(a.value_bits)
}

/// A packet that a transmitter sends is decoded back to its fields by a
/// receiver that knows the same View PIN, unless the reading is NaN or
/// infinite.
pub proof fn lemma_advert_roundtrip(a: DecodedAdvert, pin: Seq<u8>)
    requires
        !is_nan_or_infinite_bits(a.value_bits),
    ensures
        decoded_advert(xor_with_seed(advert_plain(a), xor_seed_for(pin)), pin) == Some(a),
{
    let plain = advert_plain(a);
    let seed = xor_seed_for(pin);
    lemma_xor_involution(plain, seed);
    let raw = xor_with_seed(plain, seed);
    let d = xor_with_seed(raw, seed);
    assert(d == plain);
    assert(plain.len() == 9);
    assert(d[0] == 1);
    lemma_u16_roundtrip(a.data_tag);
    lemma_u32_roundtrip(a.value_bits);
    assert(d[1] == be16_bytes(a.data_tag)[0]);
    assert(d[2] == be16_bytes(a.data_tag)[1]);
    assert(d[3] == a.status);
    assert(d[4] == a.units);
    assert(d[5] == be32_bytes(a.value_bits)[0]);
    assert(d[6] == be32_bytes(a.value_bits)[1]);
    assert(d[7] == be32_bytes(a.value_bits)[2]);
    assert(d[8] == be32_bytes(a.value_bits)[3]);
}


/// The UTF-8 encoding of a nonzero scalar has no zero byte.
proof fn lemma_scalar_bytes_nonzero(v: u32)
    requires
        v != 0,
        is_scalar(v),
    ensures
        forall|i: int| 0 <= i < encode_scalar(v).len() ==> encode_scalar(v)[i] != 0,
{
    assert(v != 0 && v <= 0x7F ==> (v & 0x7F) as u8 != 0) by (bit_vector);
    assert(0xC0u8 | ((v >> 6) & 0x1F) as u8 != 0) by (bit_vector);
    assert(0xE0u8 | ((v >> 12) & 0x0F) as u8 != 0) by (bit_vector);
    assert(0xF0u8 | ((v >> 18) & 0x7) as u8 != 0) by (bit_vector);
    assert(0x80u8 | (v & 0x3F) as u8 != 0) by (bit_vector);
    assert(0x80u8 | ((v >> 6) & 0x3F) as u8 != 0) by (bit_vector);
    assert(0x80u8 | ((v >> 12) & 0x3F) as u8 != 0) by (bit_vector);
}

/// The UTF-8 encoding of a text without NUL characters has no zero byte.
pub proof fn lemma_utf8_without_nul(s: Seq<char>)
    requires
        forall|i: int| 0 <= i < s.len() ==> s[i] != '\0',
    ensures
        forall|j: int| 0 <= j < encode_utf8(s).len() ==> encode_utf8(s)[j] != 0,
    decreases s.len(),
{
    if s.len() > 0 {
        let t = s.drop_first();
        assert forall|i: int| 0 <= i < t.len() implies t[i] != '\0' by {
            assert(t[i] == s[i + 1]);
        }
        lemma_utf8_without_nul(t);
        let c = s[0];
        char_is_scalar(c);
        assert(c as u32 != 0) by {
            if c as u32 == 0 {
                char_u32_cast(c, 0);
                char_u32_cast('\0', 0);
            }
        }
        lemma_scalar_bytes_nonzero(c as u32);
        let a = encode_scalar(c as u32);
        let e = encode_utf8(s);
        assert(e == a + encode_utf8(t));
        assert forall|j: int| 0 <= j < e.len() implies e[j] != 0 by {
            if j < a.len() {
                assert(e[j] == a[j]);
            } else {
                assert(e[j] == encode_utf8(t)[j - a.len()]);
            }
        }
    }
}

/// The bytes up to the first zero of a field written by `encode_string`:
/// for a text without NUL characters, the first `pad_to - 1` bytes of its
/// UTF-8 encoding, or all of them when they fit.
pub proof fn lemma_string_field_prefix(s: Seq<char>, pad_to: nat)
    requires
        forall|i: int| 0 <= i < s.len() ==> s[i] != '\0',
        pad_to > 0,
    ensures
        ({
            let e = encode_utf8(s);
            let b = padded(e, pad_to);
            let k = if e.len() < pad_to { e.len() as int } else { pad_to - 1 };
            b.take(first_nul(b)) == e.take(k)
        }),
{
    let e = encode_utf8(s);
    lemma_utf8_without_nul(s);
    let b = padded(e, pad_to);
    let k = if e.len() < pad_to { e.len() as int } else { pad_to - 1 };
    assert forall|j: int| 0 <= j < k implies b[j] != 0 by {
        assert(b[j] == e[j]);
    }
    lemma_first_nul(b, k);
    assert(b[k] == 0);
    assert(first_nul(b) == k);
    assert(b.take(k) =~= e.take(k));
}

/// A text without NUL characters, encoded with `encode_string` to more
/// bytes than its UTF-8 encoding has, decodes back to the same text with
/// `decode_string`: the bytes up to the first zero are its valid UTF-8
/// encoding.
pub proof fn lemma_string_roundtrip(s: Seq<char>, pad_to: nat)
    requires
        forall|i: int| 0 <= i < s.len() ==> s[i] != '\0',
        encode_utf8(s).len() < pad_to,
    ensures
        ({
            let b = padded(encode_utf8(s), pad_to);
            &&& b.take(first_nul(b)) == encode_utf8(s)
            &&& valid_utf8(b.take(first_nul(b)))
            &&& decode_utf8(b.take(first_nul(b))) == s
        }),
{
    let e = encode_utf8(s);
    encode_utf8_valid_utf8(s);
    encode_utf8_decode_utf8(s);
    lemma_string_field_prefix(s, pad_to);
    assert(e.take(e.len() as int) =~= e);
}

} // verus!
