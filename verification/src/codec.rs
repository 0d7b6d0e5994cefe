//! Wire codec primitives: little-endian integers, booleans, scalar
//! characters, strings and byte buffers, each with a specification-level
//! encoder and decoder and a proof that decoding undoes encoding.

use vstd::prelude::*;

verus! {

/// `e` occupies positions `i .. i + e.len()` of `s`.
pub open spec fn bytes_at(s: Seq<u8>, i: int, e: Seq<u8>) -> bool {
    &&& 0 <= i
    &&& i + e.len() <= s.len()
    &&& s.subrange(i, i + e.len() as int) == e
}

pub proof fn lemma_bytes_at_split(s: Seq<u8>, i: int, e1: Seq<u8>, e2: Seq<u8>)
    requires
        bytes_at(s, i, e1 + e2),
    ensures
        bytes_at(s, i, e1),
        bytes_at(s, i + e1.len(), e2),
{
    let e = e1 + e2;
    assert(s.subrange(i, i + e1.len() as int) =~= e.subrange(0, e1.len() as int));
    assert(e.subrange(0, e1.len() as int) =~= e1);
    assert(s.subrange(i + e1.len(), i + e.len() as int) =~= e.subrange(
        e1.len() as int,
        e.len() as int,
    ));
    assert(e.subrange(e1.len() as int, e.len() as int) =~= e2);
}

// ---------------------------------------------------------------------------
// u8
// ---------------------------------------------------------------------------
pub open spec fn enc_u8(v: u8) -> Seq<u8> {
    seq![v]
}

pub open spec fn dec_u8(s: Seq<u8>, i: int) -> Option<(u8, int)> {
    if 0 <= i && i + 1 <= s.len() {
        Some((s[i], i + 1))
    } else {
        None
    }
}

pub proof fn lemma_dec_enc_u8(s: Seq<u8>, i: int, v: u8)
    requires
        bytes_at(s, i, enc_u8(v)),
    ensures
        dec_u8(s, i) == Some((v, i + 1)),
{
    assert(s.subrange(i, i + 1)[0] == s[i]);
}

// ---------------------------------------------------------------------------
// u32, little endian
// ---------------------------------------------------------------------------
pub open spec fn enc_u32(v: u32) -> Seq<u8> {
    seq![
        (v & 0xff) as u8,
        ((v >> 8) & 0xff) as u8,
        ((v >> 16) & 0xff) as u8,
        ((v >> 24) & 0xff) as u8,
    ]
}

pub open spec fn dec_u32(s: Seq<u8>, i: int) -> Option<(u32, int)> {
    if 0 <= i && i + 4 <= s.len() {
        let v = (s[i] as u32) | (s[i + 1] as u32) << 8 | (s[i + 2] as u32) << 16 | (s[i + 3]
            as u32) << 24;
        Some((v, i + 4))
    } else {
        None
    }
}

pub proof fn lemma_dec_enc_u32(s: Seq<u8>, i: int, v: u32)
    requires
        bytes_at(s, i, enc_u32(v)),
    ensures
        dec_u32(s, i) == Some((v, i + 4)),
{
    assert(s[i] == (v & 0xff) as u8 && s[i + 1] == ((v >> 8) & 0xff) as u8 && s[i + 2] == ((v
        >> 16) & 0xff) as u8 && s[i + 3] == ((v >> 24) & 0xff) as u8) by {
        assert(s.subrange(i, i + 4)[0] == s[i]);
        assert(s.subrange(i, i + 4)[1] == s[i + 1]);
        assert(s.subrange(i, i + 4)[2] == s[i + 2]);
        assert(s.subrange(i, i + 4)[3] == s[i + 3]);
    }
    assert(((v & 0xff) as u8 as u32) | (((v >> 8) & 0xff) as u8 as u32) << 8 | (((v >> 16) & 0xff)
        as u8 as u32) << 16 | (((v >> 24) & 0xff) as u8 as u32) << 24 == v) by (bit_vector);
}

// ---------------------------------------------------------------------------
// u64, little endian
// ---------------------------------------------------------------------------
pub open spec fn enc_u64(v: u64) -> Seq<u8> {
    seq![
        (v & 0xff) as u8,
        ((v >> 8) & 0xff) as u8,
        ((v >> 16) & 0xff) as u8,
        ((v >> 24) & 0xff) as u8,
        ((v >> 32) & 0xff) as u8,
        ((v >> 40) & 0xff) as u8,
        ((v >> 48) & 0xff) as u8,
        ((v >> 56) & 0xff) as u8,
    ]
}

pub open spec fn dec_u64(s: Seq<u8>, i: int) -> Option<(u64, int)> {
    if 0 <= i && i + 8 <= s.len() {
        let v = (s[i] as u64) | (s[i + 1] as u64) << 8 | (s[i + 2] as u64) << 16 | (s[i + 3]
            as u64) << 24 | (s[i + 4] as u64) << 32 | (s[i + 5] as u64) << 40 | (s[i + 6]
            as u64) << 48 | (s[i + 7] as u64) << 56;
        Some((v, i + 8))
    } else {
        None
    }
}

pub proof fn lemma_dec_enc_u64(s: Seq<u8>, i: int, v: u64)
    requires
        bytes_at(s, i, enc_u64(v)),
    ensures
        dec_u64(s, i) == Some((v, i + 8)),
{
    assert forall|k: int| 0 <= k < 8 implies s[i + k] == enc_u64(v)[k] by {
        assert(s.subrange(i, i + 8)[k] == s[i + k]);
    }
    assert(((v & 0xff) as u8 as u64) | (((v >> 8) & 0xff) as u8 as u64) << 8 | (((v >> 16) & 0xff)
        as u8 as u64) << 16 | (((v >> 24) & 0xff) as u8 as u64) << 24 | (((v >> 32) & 0xff) as u8
        as u64) << 32 | (((v >> 40) & 0xff) as u8 as u64) << 40 | (((v >> 48) & 0xff) as u8
        as u64) << 48 | (((v >> 56) & 0xff) as u8 as u64) << 56 == v) by (bit_vector);
}

// ---------------------------------------------------------------------------
// u128, as low and high u64 halves
// ---------------------------------------------------------------------------
pub open spec fn u128_low(v: u128) -> u64 {
    (v & 0xffff_ffff_ffff_ffff) as u64
}

pub open spec fn u128_high(v: u128) -> u64 {
    (v >> 64) as u64
}

pub open spec fn enc_u128(v: u128) -> Seq<u8> {
    enc_u64(u128_low(v)) + enc_u64(u128_high(v))
}

pub open spec fn dec_u128(s: Seq<u8>, i: int) -> Option<(u128, int)> {
    match dec_u64(s, i) {
        None => None,
        Some((lo, j)) => match dec_u64(s, j) {
            None => None,
            Some((hi, k)) => Some(((lo as u128) | ((hi as u128) << 64), k)),
        },
    }
}

pub proof fn lemma_u128_parts(v: u128)
    ensures
        (u128_low(v) as u128) | ((u128_high(v) as u128) << 64) == v,
{
    assert(((v & 0xffff_ffff_ffff_ffff) as u64 as u128) | (((v >> 64) as u64 as u128) << 64) == v)
        by (bit_vector);
}

pub proof fn lemma_dec_enc_u128(s: Seq<u8>, i: int, v: u128)
    requires
        bytes_at(s, i, enc_u128(v)),
    ensures
        dec_u128(s, i) == Some((v, i + 16)),
{
    lemma_bytes_at_split(s, i, enc_u64(u128_low(v)), enc_u64(u128_high(v)));
    lemma_dec_enc_u64(s, i, u128_low(v));
    lemma_dec_enc_u64(s, i + 8, u128_high(v));
    lemma_u128_parts(v);
}

// ---------------------------------------------------------------------------
// bool
// ---------------------------------------------------------------------------
pub open spec fn enc_bool(b: bool) -> Seq<u8> {
    seq![if b { 1u8 } else { 0u8 }]
}

pub open spec fn dec_bool(s: Seq<u8>, i: int) -> Option<(bool, int)> {
    match dec_u8(s, i) {
        None => None,
        Some((0u8, j)) => Some((false, j)),
        Some((1u8, j)) => Some((true, j)),
        Some(_) => None,
    }
}

pub proof fn lemma_dec_enc_bool(s: Seq<u8>, i: int, b: bool)
    requires
        bytes_at(s, i, enc_bool(b)),
    ensures
        dec_bool(s, i) == Some((b, i + 1)),
{
    lemma_dec_enc_u8(s, i, if b { 1u8 } else { 0u8 });
}

// ---------------------------------------------------------------------------
// char, as its 32-bit Unicode scalar value
// ---------------------------------------------------------------------------
pub open spec fn enc_char(c: char) -> Seq<u8> {
    enc_u32(c as u32)
}

pub open spec fn dec_char(s: Seq<u8>, i: int) -> Option<(char, int)> {
    match dec_u32(s, i) {
        None => None,
        Some((u, j)) => if vstd::utf8::is_scalar(u) {
            Some((u as char, j))
        } else {
            None
        },
    }
}

pub proof fn lemma_dec_enc_char(s: Seq<u8>, i: int, c: char)
    requires
        bytes_at(s, i, enc_char(c)),
    ensures
        dec_char(s, i) == Some((c, i + 4)),
{
    lemma_dec_enc_u32(s, i, c as u32);
    vstd::utf8::char_is_scalar(c);
    vstd::utf8::char_u32_cast(c, c as u32);
}

// ---------------------------------------------------------------------------
// character sequences and strings (u64 length prefix)
// ---------------------------------------------------------------------------
pub open spec fn enc_chars(cs: Seq<char>) -> Seq<u8>
    decreases cs.len(),
{
    if cs.len() == 0 {
        Seq::empty()
    } else {
        enc_char(cs[0]) + enc_chars(cs.drop_first())
    }
}

pub open spec fn dec_chars(s: Seq<u8>, i: int, n: int) -> Option<(Seq<char>, int)>
    decreases n,
{
    if n <= 0 {
        Some((Seq::empty(), i))
    } else {
        match dec_char(s, i) {
            None => None,
            Some((c, j)) => match dec_chars(s, j, n - 1) {
                None => None,
                Some((cs, k)) => Some((seq![c] + cs, k)),
            },
        }
    }
}

pub proof fn lemma_enc_chars_len(cs: Seq<char>)
    ensures
        enc_chars(cs).len() == 4 * cs.len(),
    decreases cs.len(),
{
    if cs.len() > 0 {
        lemma_enc_chars_len(cs.drop_first());
    }
}

pub proof fn lemma_enc_chars_push(cs: Seq<char>, c: char)
    ensures
        enc_chars(cs.push(c)) == enc_chars(cs) + enc_char(c),
    decreases cs.len(),
{
    if cs.len() == 0 {
        assert(cs.push(c).drop_first() =~= Seq::<char>::empty());
        assert(cs.push(c)[0] == c);
        assert(enc_chars(cs.push(c)) == enc_char(c) + enc_chars(Seq::<char>::empty()));
        assert(enc_char(c) + Seq::<u8>::empty() =~= enc_char(c));
        assert(Seq::<u8>::empty() + enc_char(c) =~= enc_char(c));
    } else {
        assert(cs.push(c).drop_first() =~= cs.drop_first().push(c));
        lemma_enc_chars_push(cs.drop_first(), c);
        assert(enc_chars(cs.push(c)) =~= enc_chars(cs) + enc_char(c));
    }
}

pub proof fn lemma_dec_enc_chars(s: Seq<u8>, i: int, cs: Seq<char>)
    requires
        bytes_at(s, i, enc_chars(cs)),
    ensures
        dec_chars(s, i, cs.len() as int) == Some((cs, i + enc_chars(cs).len())),
    decreases cs.len(),
{
    if cs.len() == 0 {
        assert(dec_chars(s, i, 0) == Some((Seq::<char>::empty(), i)));
        assert(cs =~= Seq::<char>::empty());
    } else {
        lemma_bytes_at_split(s, i, enc_char(cs[0]), enc_chars(cs.drop_first()));
        lemma_dec_enc_char(s, i, cs[0]);
        lemma_dec_enc_chars(s, i + 4, cs.drop_first());
        assert(seq![cs[0]] + cs.drop_first() =~= cs);
        lemma_enc_chars_len(cs.drop_first());
    }
}

/// A decoded character sequence of `n` entries consumes exactly `4 * n` bytes.
pub proof fn lemma_dec_chars_bytes(s: Seq<u8>, i: int, n: int)
    requires
        dec_chars(s, i, n) is Some,
        n >= 0,
        0 <= i <= s.len(),
    ensures
        dec_chars(s, i, n).unwrap().1 == i + 4 * n <= s.len(),
        dec_chars(s, i, n).unwrap().0.len() == n,
    decreases n,
{
    if n > 0 {
        let (c, j) = dec_char(s, i).unwrap();
        lemma_dec_chars_bytes(s, j, n - 1);
    }
}

pub open spec fn enc_string(cs: Seq<char>) -> Seq<u8> {
    enc_u64(cs.len() as u64) + enc_chars(cs)
}

pub open spec fn dec_string(s: Seq<u8>, i: int) -> Option<(Seq<char>, int)> {
    match dec_u64(s, i) {
        None => None,
        Some((n, j)) => dec_chars(s, j, n as int),
    }
}

/// Well-formed for encoding: the length fits the 64-bit prefix.
pub open spec fn wf_string(cs: Seq<char>) -> bool {
    cs.len() <= u64::MAX
}

pub proof fn lemma_dec_enc_string(s: Seq<u8>, i: int, cs: Seq<char>)
    requires
        bytes_at(s, i, enc_string(cs)),
        wf_string(cs),
    ensures
        dec_string(s, i) == Some((cs, i + enc_string(cs).len())),
{
    lemma_bytes_at_split(s, i, enc_u64(cs.len() as u64), enc_chars(cs));
    lemma_dec_enc_u64(s, i, cs.len() as u64);
    lemma_dec_enc_chars(s, i + 8, cs);
}

// ---------------------------------------------------------------------------
// byte buffers (u64 length prefix)
// ---------------------------------------------------------------------------
pub open spec fn enc_bytes(b: Seq<u8>) -> Seq<u8> {
    enc_u64(b.len() as u64) + b
}

pub open spec fn dec_bytes(s: Seq<u8>, i: int) -> Option<(Seq<u8>, int)> {
    match dec_u64(s, i) {
        None => None,
        Some((n, j)) => if j + n <= s.len() {
            Some((s.subrange(j, j + n as int), j + n as int))
        } else {
            None
        },
    }
}

pub open spec fn wf_bytes(b: Seq<u8>) -> bool {
    b.len() <= u64::MAX
}

pub proof fn lemma_dec_enc_bytes(s: Seq<u8>, i: int, b: Seq<u8>)
    requires
        bytes_at(s, i, enc_bytes(b)),
        wf_bytes(b),
    ensures
        dec_bytes(s, i) == Some((b, i + enc_bytes(b).len())),
{
    lemma_bytes_at_split(s, i, enc_u64(b.len() as u64), b);
    lemma_dec_enc_u64(s, i, b.len() as u64);
    assert(s.subrange(i + 8, i + 8 + b.len() as int) =~= b);
}

// ---------------------------------------------------------------------------
// executable primitives
// ---------------------------------------------------------------------------
fn low_byte_u64(v: u64) -> (r: u8)
    ensures
        r == (v & 0xff) as u8,
{
    proof {
        assert(v & 0xff < 256) by (bit_vector);
    }
    (v & 0xff) as u8
}

fn low_byte_u32(v: u32) -> (r: u8)
    ensures
        r == (v & 0xff) as u8,
{
    proof {
        assert(v & 0xff < 256) by (bit_vector);
    }
    (v & 0xff) as u8
}

pub fn encode_u8(out: &mut Vec<u8>, v: u8)
    ensures
        final(out)@ == old(out)@ + enc_u8(v),
{
    out.push(v);
    proof {
        assert(final(out)@ =~= old(out)@ + enc_u8(v));
    }
}

pub fn encode_u32(out: &mut Vec<u8>, v: u32)
    ensures
        final(out)@ == old(out)@ + enc_u32(v),
{
    out.push(low_byte_u32(v));
    out.push(low_byte_u32(v >> 8));
    out.push(low_byte_u32(v >> 16));
    out.push(low_byte_u32(v >> 24));
    proof {
        assert(final(out)@ =~= old(out)@ + enc_u32(v));
    }
}

pub fn encode_u64(out: &mut Vec<u8>, v: u64)
    ensures
        final(out)@ == old(out)@ + enc_u64(v),
{
    out.push(low_byte_u64(v));
    out.push(low_byte_u64(v >> 8));
    out.push(low_byte_u64(v >> 16));
    out.push(low_byte_u64(v >> 24));
    out.push(low_byte_u64(v >> 32));
    out.push(low_byte_u64(v >> 40));
    out.push(low_byte_u64(v >> 48));
    out.push(low_byte_u64(v >> 56));
    proof {
        assert(final(out)@ =~= old(out)@ + enc_u64(v));
    }
}

pub fn encode_u128(out: &mut Vec<u8>, v: u128)
    ensures
        final(out)@ == old(out)@ + enc_u128(v),
{
    proof {
        assert(v & 0xffff_ffff_ffff_ffff <= u64::MAX && (v >> 64) <= u64::MAX) by (bit_vector);
    }
    let lo: u64 = (v & 0xffff_ffff_ffff_ffff) as u64;
    let hi: u64 = (v >> 64) as u64;
    encode_u64(out, lo);
    encode_u64(out, hi);
    proof {
        assert(final(out)@ =~= old(out)@ + enc_u128(v));
    }
}

pub fn encode_bool(out: &mut Vec<u8>, b: bool)
    ensures
        final(out)@ == old(out)@ + enc_bool(b),
{
    out.push(if b { 1u8 } else { 0u8 });
    proof {
        assert(final(out)@ =~= old(out)@ + enc_bool(b));
    }
}

pub fn encode_char(out: &mut Vec<u8>, c: char)
    ensures
        final(out)@ == old(out)@ + enc_char(c),
{
    encode_u32(out, c as u32);
}

pub fn encode_str(out: &mut Vec<u8>, s: &str)
    ensures
        final(out)@ == old(out)@ + enc_string(s@),
{
    let n = s.unicode_len();
    encode_u64(out, n as u64);
    let ghost mid = out@;
    let mut k: usize = 0;
    while k < n
        invariant
            n == s@.len(),
            k <= n,
            out@ == mid + enc_chars(s@.take(k as int)),
        decreases n - k,
    {
        let c = s.get_char(k);
        encode_char(out, c);
        proof {
            lemma_enc_chars_push(s@.take(k as int), c);
            assert(s@.take(k as int).push(c) =~= s@.take(k + 1 as int));
        }
        k = k + 1;
    }
    proof {
        assert(s@.take(n as int) =~= s@);
        assert(final(out)@ =~= old(out)@ + enc_string(s@));
    }
}

pub fn encode_bytes(out: &mut Vec<u8>, b: &Vec<u8>)
    ensures
        final(out)@ == old(out)@ + enc_bytes(b@),
{
    encode_u64(out, b.len() as u64);
    let ghost mid = out@;
    let mut k: usize = 0;
    while k < b.len()
        invariant
            k <= b@.len(),
            out@ == mid + b@.take(k as int),
        decreases b@.len() - k,
    {
        out.push(b[k]);
        proof {
            assert(b@.take(k as int).push(b@[k as int]) =~= b@.take(k + 1 as int));
            assert(out@ =~= mid + b@.take(k + 1 as int));
        }
        k = k + 1;
    }
    proof {
        assert(b@.take(b@.len() as int) =~= b@);
        assert(final(out)@ =~= old(out)@ + enc_bytes(b@));
    }
}

/// Relies on char::from_u32: returns the character with the given code
/// when the value is a Unicode scalar value, and None otherwise.
#[verifier::external_body]
fn char_from_u32(v: u32) -> (r: Option<char>)
    ensures
        r == if vstd::utf8::is_scalar(v) {
            Some(v as char)
        } else {
            None::<char>
        },
{
    char::from_u32(v)
}


pub fn decode_u8(data: &Vec<u8>, i: usize) -> (r: Option<(u8, usize)>)
    ensures
        r is Some <==> dec_u8(data@, i as int) is Some,
        r is Some ==> dec_u8(data@, i as int) == Some((r.unwrap().0, r.unwrap().1 as int))
            && i < r.unwrap().1 <= data@.len(),
{
    let dl = data.len();
    if i < dl {
        Some((data[i], i + 1))
    } else {
        None
    }
}

pub fn decode_u32(data: &Vec<u8>, i: usize) -> (r: Option<(u32, usize)>)
    ensures
        r is Some <==> dec_u32(data@, i as int) is Some,
        r is Some ==> dec_u32(data@, i as int) == Some((r.unwrap().0, r.unwrap().1 as int))
            && i < r.unwrap().1 <= data@.len(),
{
    let dl = data.len();
    if i <= usize::MAX - 4 && i + 4 <= dl {
        let v = (data[i] as u32) | (data[i + 1] as u32) << 8 | (data[i + 2] as u32) << 16 | (data[i
            + 3] as u32) << 24;
        Some((v, i + 4))
    } else {
        None
    }
}

pub fn decode_u64(data: &Vec<u8>, i: usize) -> (r: Option<(u64, usize)>)
    ensures
        r is Some <==> dec_u64(data@, i as int) is Some,
        r is Some ==> dec_u64(data@, i as int) == Some((r.unwrap().0, r.unwrap().1 as int))
            && i < r.unwrap().1 <= data@.len(),
{
    let dl = data.len();
    if i <= usize::MAX - 8 && i + 8 <= dl {
        let v = (data[i] as u64) | (data[i + 1] as u64) << 8 | (data[i + 2] as u64) << 16 | (data[i
            + 3] as u64) << 24 | (data[i + 4] as u64) << 32 | (data[i + 5] as u64) << 40 | (data[i
            + 6] as u64) << 48 | (data[i + 7] as u64) << 56;
        Some((v, i + 8))
    } else {
        None
    }
}

pub fn decode_u128(data: &Vec<u8>, i: usize) -> (r: Option<(u128, usize)>)
    ensures
        r is Some <==> dec_u128(data@, i as int) is Some,
        r is Some ==> dec_u128(data@, i as int) == Some((r.unwrap().0, r.unwrap().1 as int))
            && i < r.unwrap().1 <= data@.len(),
{
    match decode_u64(data, i) {
        None => None,
        Some((lo, j)) => match decode_u64(data, j) {
            None => None,
            Some((hi, k)) => Some(((lo as u128) | ((hi as u128) << 64), k)),
        },
    }
}

pub fn decode_bool(data: &Vec<u8>, i: usize) -> (r: Option<(bool, usize)>)
    ensures
        r is Some <==> dec_bool(data@, i as int) is Some,
        r is Some ==> dec_bool(data@, i as int) == Some((r.unwrap().0, r.unwrap().1 as int))
            && i < r.unwrap().1 <= data@.len(),
{
    match decode_u8(data, i) {
        None => None,
        Some((0u8, j)) => Some((false, j)),
        Some((1u8, j)) => Some((true, j)),
        Some(_) => None,
    }
}

pub fn decode_char(data: &Vec<u8>, i: usize) -> (r: Option<(char, usize)>)
    ensures
        r is Some <==> dec_char(data@, i as int) is Some,
        r is Some ==> dec_char(data@, i as int) == Some((r.unwrap().0, r.unwrap().1 as int))
            && i < r.unwrap().1 <= data@.len(),
{
    match decode_u32(data, i) {
        None => None,
        Some((u, j)) => match char_from_u32(u) {
            None => None,
            Some(c) => Some((c, j)),
        },
    }
}

pub fn decode_string(data: &Vec<u8>, i: usize) -> (r: Option<(String, usize)>)
    ensures
        r is Some <==> dec_string(data@, i as int) is Some,
        r is Some ==> dec_string(data@, i as int) == Some((r.unwrap().0@, r.unwrap().1 as int))
            && i < r.unwrap().1 <= data@.len(),
{
    match decode_u64(data, i) {
        None => None,
        Some((n64, j)) => {
            let remaining = data.len() - j;
            if n64 > (remaining / 4) as u64 {
                proof {
                    if dec_chars(data@, j as int, n64 as int) is Some {
                        lemma_dec_chars_bytes(data@, j as int, n64 as int);
                    }
                }
                None
            } else {
                let n = n64 as usize;
                let mut s = String::new();
                let mut k: usize = 0;
                let mut pos: usize = j;
                let mut failed = false;
                while k < n
                    invariant
                        k <= n,
                        n <= (data@.len() - j) / 4,
                        j <= pos <= data@.len(),
                        !failed ==> s@.len() == k,
                        !failed ==> dec_chars(data@, j as int, n as int) == (match dec_chars(
                            data@,
                            pos as int,
                            n - k,
                        ) {
                            None => None::<(Seq<char>, int)>,
                            Some((cs, e)) => Some((s@ + cs, e)),
                        }),
                        failed ==> dec_chars(data@, j as int, n as int) is None,
                    decreases n - k,
                {
                    match decode_char(data, pos) {
                        None => {
                            proof {
                                assert(dec_chars(data@, pos as int, n - k) is None);
                            }
                            failed = true;
                            k = n;
                        },
                        Some((c, p2)) => {
                            proof {
                                let ghost rest = dec_chars(data@, p2 as int, n - k - 1);
                                if rest is Some {
                                    let (cs, e) = rest.unwrap();
                                    assert(s@ + (seq![c] + cs) =~= s@.push(c) + cs);
                                }
                            }
                            crate::strutil::push_char(&mut s, c);
                            pos = p2;
                            k = k + 1;
                        },
                    }
                }
                if failed {
                    None
                } else {
                    proof {
                        assert(dec_chars(data@, pos as int, 0) == Some((Seq::<char>::empty(), pos
                            as int)));
                        assert(s@ + Seq::<char>::empty() =~= s@);
                    }
                    Some((s, pos))
                }
            }
        },
    }
}

pub fn decode_bytes(data: &Vec<u8>, i: usize) -> (r: Option<(Vec<u8>, usize)>)
    ensures
        r is Some <==> dec_bytes(data@, i as int) is Some,
        r is Some ==> dec_bytes(data@, i as int) == Some((r.unwrap().0@, r.unwrap().1 as int))
            && i < r.unwrap().1 <= data@.len(),
{
    match decode_u64(data, i) {
        None => None,
        Some((n64, j)) => {
            let dl = data.len();
            if n64 > (dl - j) as u64 {
                None
            } else {
                let n = n64 as usize;
                let mut b: Vec<u8> = Vec::new();
                let mut k: usize = 0;
                while k < n
                    invariant
                        k <= n,
                        j + n <= dl == data@.len(),
                        b@ == data@.subrange(j as int, j + k as int),
                    decreases n - k,
                {
                    b.push(data[j + k]);
                    proof {
                        assert(data@.subrange(j as int, j + k as int).push(data@[j + k])
                            =~= data@.subrange(j as int, j + k + 1 as int));
                    }
                    k = k + 1;
                }
                Some((b, j + n))
            }
        },
    }
}

} // verus!
