//! Frames on a link: each frame carries one message in one of the two
//! interchangeable encodings.  The binary form is the compact byte
//! encoding; the textual form renders those bytes as hexadecimal digits.

use vstd::prelude::*;
use crate::codec::{bytes_at, dec_u8};
use crate::msgspec::{enc_msg, dec_msg, lemma_dec_enc_msg_at, wf_msg};
use crate::msgexec::{encode_message, decode_message};
use crate::protocol::{Message, MessageV};

verus! {

/// Message format preference negotiated per link.
#[derive(Debug, Clone, Copy, PartialEq, Eq, Structural)]
pub enum MessageFormat {
    Text,
    Binary,
}

/// A framed message as it crosses the transport.
#[derive(Debug, Clone)]
pub enum Frame {
    Text(String),
    Binary(Vec<u8>),
}

pub open spec fn hex_digit(n: u8) -> char {
    if n == 0 {
        '0'
    } else if n == 1 {
        '1'
    } else if n == 2 {
        '2'
    } else if n == 3 {
        '3'
    } else if n == 4 {
        '4'
    } else if n == 5 {
        '5'
    } else if n == 6 {
        '6'
    } else if n == 7 {
        '7'
    } else if n == 8 {
        '8'
    } else if n == 9 {
        '9'
    } else if n == 10 {
        'a'
    } else if n == 11 {
        'b'
    } else if n == 12 {
        'c'
    } else if n == 13 {
        'd'
    } else if n == 14 {
        'e'
    } else {
        'f'
    }
}

pub open spec fn unhex_digit(c: char) -> Option<u8> {
    if c == '0' {
        Some(0u8)
    } else if c == '1' {
        Some(1u8)
    } else if c == '2' {
        Some(2u8)
    } else if c == '3' {
        Some(3u8)
    } else if c == '4' {
        Some(4u8)
    } else if c == '5' {
        Some(5u8)
    } else if c == '6' {
        Some(6u8)
    } else if c == '7' {
        Some(7u8)
    } else if c == '8' {
        Some(8u8)
    } else if c == '9' {
        Some(9u8)
    } else if c == 'a' {
        Some(10u8)
    } else if c == 'b' {
        Some(11u8)
    } else if c == 'c' {
        Some(12u8)
    } else if c == 'd' {
        Some(13u8)
    } else if c == 'e' {
        Some(14u8)
    } else if c == 'f' {
        Some(15u8)
    } else {
        None
    }
}

/// Hexadecimal rendering of a byte sequence, two digits per byte.
pub open spec fn hex_of(b: Seq<u8>) -> Seq<char>
    decreases b.len(),
{
    if b.len() == 0 {
        Seq::empty()
    } else {
        seq![hex_digit((b[0] / 16) as u8), hex_digit((b[0] % 16) as u8)] + hex_of(b.drop_first())
    }
}

/// Parse a hexadecimal rendering back into bytes.
pub open spec fn unhex(cs: Seq<char>) -> Option<Seq<u8>>
    decreases cs.len(),
{
    if cs.len() == 0 {
        Some(Seq::empty())
    } else if cs.len() == 1 {
        None
    } else {
        match (unhex_digit(cs[0]), unhex_digit(cs[1])) {
            (Some(hi), Some(lo)) => match unhex(cs.skip(2)) {
                None => None,
                Some(rest) => Some(seq![(hi * 16 + lo) as u8] + rest),
            },
            _ => None,
        }
    }
}

pub proof fn lemma_unhex_digit(n: u8)
    requires
        n < 16,
    ensures
        unhex_digit(hex_digit(n)) == Some(n),
{
}

/// Parsing undoes the hexadecimal rendering.
pub proof fn lemma_unhex_hex(b: Seq<u8>)
    ensures
        unhex(hex_of(b)) == Some(b),
    decreases b.len(),
{
    if b.len() == 0 {
        assert(b =~= Seq::<u8>::empty());
    } else {
        let cs = hex_of(b);
        let hi = (b[0] / 16) as u8;
        let lo = (b[0] % 16) as u8;
        lemma_unhex_digit(hi);
        lemma_unhex_digit(lo);
        assert(hi * 16 + lo == b[0]);
        assert(cs.skip(2) =~= hex_of(b.drop_first()));
        lemma_unhex_hex(b.drop_first());
        assert(seq![b[0]] + b.drop_first() =~= b);
    }
}

/// The textual rendering of a message.
pub open spec fn enc_msg_text(m: MessageV) -> Seq<char> {
    hex_of(enc_msg(m))
}

/// Decoding of a textual frame.
pub open spec fn dec_msg_text(cs: Seq<char>) -> Option<MessageV> {
    match unhex(cs) {
        None => None,
        Some(b) => dec_msg(b),
    }
}

/// The textual round trip is exact, like the binary one.
pub proof fn lemma_round_trip_text(m: MessageV)
    requires
        wf_msg(m),
    ensures
        dec_msg_text(enc_msg_text(m)) == Some(m),
{
    lemma_unhex_hex(enc_msg(m));
    let s = enc_msg(m);
    assert(s.subrange(0, s.len() as int) =~= s);
    lemma_dec_enc_msg_at(s, 0, m);
}

fn hex_digit_exec(n: u8) -> (r: char)
    requires
        n < 16,
    ensures
        r == hex_digit(n),
{
    if n == 0 {
        '0'
    } else if n == 1 {
        '1'
    } else if n == 2 {
        '2'
    } else if n == 3 {
        '3'
    } else if n == 4 {
        '4'
    } else if n == 5 {
        '5'
    } else if n == 6 {
        '6'
    } else if n == 7 {
        '7'
    } else if n == 8 {
        '8'
    } else if n == 9 {
        '9'
    } else if n == 10 {
        'a'
    } else if n == 11 {
        'b'
    } else if n == 12 {
        'c'
    } else if n == 13 {
        'd'
    } else if n == 14 {
        'e'
    } else {
        'f'
    }
}

fn unhex_digit_exec(c: char) -> (r: Option<u8>)
    ensures
        r == unhex_digit(c),
{
    if c == '0' {
        Some(0u8)
    } else if c == '1' {
        Some(1u8)
    } else if c == '2' {
        Some(2u8)
    } else if c == '3' {
        Some(3u8)
    } else if c == '4' {
        Some(4u8)
    } else if c == '5' {
        Some(5u8)
    } else if c == '6' {
        Some(6u8)
    } else if c == '7' {
        Some(7u8)
    } else if c == '8' {
        Some(8u8)
    } else if c == '9' {
        Some(9u8)
    } else if c == 'a' {
        Some(10u8)
    } else if c == 'b' {
        Some(11u8)
    } else if c == 'c' {
        Some(12u8)
    } else if c == 'd' {
        Some(13u8)
    } else if c == 'e' {
        Some(14u8)
    } else if c == 'f' {
        Some(15u8)
    } else {
        None
    }
}


proof fn lemma_hex_of_push(b: Seq<u8>, x: u8)
    ensures
        hex_of(b.push(x)) == hex_of(b) + seq![
            hex_digit((x / 16) as u8),
            hex_digit((x % 16) as u8),
        ],
    decreases b.len(),
{
    let two = seq![hex_digit((x / 16) as u8), hex_digit((x % 16) as u8)];
    if b.len() == 0 {
        assert(b.push(x).drop_first() =~= Seq::<u8>::empty());
        assert(b.push(x)[0] == x);
        assert(hex_of(b.push(x)) == two + hex_of(Seq::<u8>::empty()));
        assert(two + Seq::<char>::empty() =~= two);
        assert(hex_of(b) + two =~= two);
    } else {
        assert(b.push(x).drop_first() =~= b.drop_first().push(x));
        lemma_hex_of_push(b.drop_first(), x);
        assert(hex_of(b.push(x)) =~= hex_of(b) + two);
    }
}

/// Render bytes as hexadecimal text.
fn hex_encode(b: &Vec<u8>) -> (r: String)
    ensures
        r@ == hex_of(b@),
{
    let mut out = String::new();
    let mut k: usize = 0;
    while k < b.len()
        invariant
            k <= b@.len(),
            out@ == hex_of(b@.take(k as int)),
        decreases b@.len() - k,
    {
        let x = b[k];
        crate::strutil::push_char(&mut out, hex_digit_exec(x / 16));
        crate::strutil::push_char(&mut out, hex_digit_exec(x % 16));
        proof {
            lemma_hex_of_push(b@.take(k as int), b@[k as int]);
            assert(b@.take(k as int).push(b@[k as int]) =~= b@.take(k + 1 as int));
        }
        k = k + 1;
    }
    proof {
        assert(b@.take(b@.len() as int) =~= b@);
    }
    out
}

/// Parse hexadecimal text back into bytes.
fn hex_decode(s: &str) -> (r: Option<Vec<u8>>)
    ensures
        r is Some ==> unhex(s@) == Some(r.unwrap()@),
        r is None ==> unhex(s@) is None,
{
    let n = s.unicode_len();
    if n % 2 != 0 {
        proof {
            lemma_unhex_odd(s@);
        }
        return None;
    }
    let mut out: Vec<u8> = Vec::new();
    let mut k: usize = 0;
    let mut failed = false;
    proof {
        assert(s@.skip(0) =~= s@);
        let whole = unhex(s@);
        if whole is Some {
            assert(out@ + whole.unwrap() =~= whole.unwrap());
        }
    }
    while k < n
        invariant
            k <= n,
            n == s@.len(),
            n % 2 == 0,
            k % 2 == 0,
            !failed ==> unhex(s@) == (match unhex(s@.skip(k as int)) {
                None => None::<Seq<u8>>,
                Some(rest) => Some(out@ + rest),
            }),
            failed ==> unhex(s@) is None,
        decreases n - k,
    {
        let c1 = s.get_char(k);
        let c2 = s.get_char(k + 1);
        let d1 = unhex_digit_exec(c1);
        let d2 = unhex_digit_exec(c2);
        proof {
            assert(s@.skip(k as int)[0] == s@[k as int]);
            assert(s@.skip(k as int)[1] == s@[k + 1]);
        }
        if d1.is_none() || d2.is_none() {
            failed = true;
            k = n;
        } else {
            let hi = d1.unwrap();
            let lo = d2.unwrap();
            let ghost prev = out@;
            out.push(hi * 16 + lo);
            proof {
                assert(s@.skip(k as int).skip(2) =~= s@.skip(k + 2));
                let rest = unhex(s@.skip(k + 2));
                if rest is Some {
                    assert(prev + (seq![(hi * 16 + lo) as u8] + rest.unwrap()) =~= out@
                        + rest.unwrap());
                }
            }
            k = k + 2;
        }
    }
    if failed {
        None
    } else {
        proof {
            assert(s@.skip(n as int) =~= Seq::<char>::empty());
            assert(out@ + Seq::<u8>::empty() =~= out@);
        }
        Some(out)
    }
}

proof fn lemma_unhex_odd(cs: Seq<char>)
    requires
        cs.len() % 2 == 1,
    ensures
        unhex(cs) is None,
    decreases cs.len(),
{
    if cs.len() > 1 {
        lemma_unhex_odd(cs.skip(2));
    }
}

/// A frame carries message `m` in format `fmt`.
pub open spec fn frame_carries(f: Frame, m: MessageV, fmt: MessageFormat) -> bool {
    match fmt {
        MessageFormat::Binary => f is Binary && (f->Binary_0)@ == enc_msg(m),
        MessageFormat::Text => f is Text && (f->Text_0)@ == enc_msg_text(m),
    }
}

/// Frame a message in the given encoding.  The outbound encoding of a
/// link is the one negotiated at auth time; callers pass that format.
pub fn encode_frame(m: &Message, fmt: MessageFormat) -> (r: Frame)
    ensures
        frame_carries(r, m@, fmt),
{
    match fmt {
        MessageFormat::Binary => Frame::Binary(encode_message(m)),
        MessageFormat::Text => {
            let b = encode_message(m);
            Frame::Text(hex_encode(&b))
        },
    }
}

/// Why a frame was rejected.
#[derive(Debug, Clone, Copy, PartialEq, Eq, Structural)]
pub enum FrameError {
    TooLarge,
    Malformed,
}

/// What decoding a frame must yield: the matching codec is chosen by the
/// frame's transport type, and an oversized binary frame is rejected
/// before its payload is touched.
pub open spec fn spec_decode_frame(f: Frame, max_message_size: u64) -> Result<
    MessageV,
    FrameError,
> {
    match f {
        Frame::Binary(b) => if b@.len() > max_message_size {
            Err(FrameError::TooLarge)
        } else {
            match dec_msg(b@) {
                Some(m) => Ok(m),
                None => Err(FrameError::Malformed),
            }
        },
        Frame::Text(s) => if s@.len() > 2 * max_message_size {
            Err(FrameError::TooLarge)
        } else {
            match dec_msg_text(s@) {
                Some(m) => Ok(m),
                None => Err(FrameError::Malformed),
            }
        },
    }
}

/// Decode one frame with the codec selected by its transport type.
pub fn decode_frame(f: &Frame, max_message_size: u64) -> (r: Result<Message, FrameError>)
    ensures
        match r {
            Ok(m) => spec_decode_frame(*f, max_message_size) == Ok::<MessageV, FrameError>(m@),
            Err(e) => spec_decode_frame(*f, max_message_size) == Err::<MessageV, FrameError>(e),
        },
{
    match f {
        Frame::Binary(b) => {
            if b.len() as u64 > max_message_size {
                return Err(FrameError::TooLarge);
            }
            match decode_message(b) {
                Some(m) => Ok(m),
                None => Err(FrameError::Malformed),
            }
        },
        Frame::Text(s) => {
            let sl = s.as_str().unicode_len() as u64;
            if max_message_size <= u64::MAX / 2 && sl > 2 * max_message_size {
                return Err(FrameError::TooLarge);
            }
            match hex_decode(s.as_str()) {
                None => Err(FrameError::Malformed),
                Some(b) => match decode_message(&b) {
                    Some(m) => Ok(m),
                    None => Err(FrameError::Malformed),
                },
            }
        },
    }
}

} // verus!
