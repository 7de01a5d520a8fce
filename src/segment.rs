//! Percent-encoding of a topic name into a single URL path segment.
use vstd::prelude::*;
use crate::text::push_char;
use vstd::string::StringSliceAdditionalSpecFns;

verus! {

/// Bytes that stand for themselves in a path segment: letters, digits and
/// `-`, `.`, `_`, `~`.
pub open spec fn is_unreserved(b: u8) -> bool {
    (0x41 <= b && b <= 0x5a) || (0x61 <= b && b <= 0x7a) || (0x30 <= b && b <= 0x39) || b == 0x2d
        || b == 0x2e || b == 0x5f || b == 0x7e
}

/// The uppercase hexadecimal digit for `d < 16`.
pub open spec fn hex_upper(d: nat) -> char {
    if d < 10 {
        ((d + 0x30) as u32) as char
    } else {
        ((d - 10 + 0x41) as u32) as char
    }
}

/// How one byte of a topic's UTF-8 text stands in the segment.
pub open spec fn encode_byte(b: u8) -> Seq<char> {
    if is_unreserved(b) {
        seq![b as char]
    } else {
        seq!['%', hex_upper((b / 16) as nat), hex_upper((b % 16) as nat)]
    }
}

/// The percent-encoded segment for the bytes `bs`.
pub open spec fn encode_segment(bs: Seq<u8>) -> Seq<char>
    decreases bs.len(),
{
    if bs.len() == 0 {
        seq![]
    } else {
        encode_byte(bs[0]) + encode_segment(bs.skip(1))
    }
}

/// The value of a hexadecimal digit, either case.
pub open spec fn hex_value(c: char) -> int {
    if '0' <= c && c <= '9' {
        c as int - '0' as int
    } else if 'A' <= c && c <= 'F' {
        c as int - 'A' as int + 10
    } else if 'a' <= c && c <= 'f' {
        c as int - 'a' as int + 10
    } else {
        0
    }
}

/// Percent-decoding of a segment back into bytes.
pub open spec fn decode_segment(s: Seq<char>) -> Seq<u8>
    decreases s.len(),
{
    if s.len() == 0 {
        seq![]
    } else if s[0] == '%' && s.len() >= 3 {
        seq![(hex_value(s[1]) * 16 + hex_value(s[2])) as u8] + decode_segment(s.skip(3))
    } else {
        seq![s[0] as u8] + decode_segment(s.skip(1))
    }
}

/// A character that ends a path segment or starts a query or fragment.
pub open spec fn is_delimiter(c: char) -> bool {
    c == '/' || c == '\\' || c == '?' || c == '#'
}

proof fn lemma_encode_push(bs: Seq<u8>, b: u8)
    ensures
        encode_segment(bs.push(b)) == encode_segment(bs) + encode_byte(b),
    decreases bs.len(),
{
    if bs.len() == 0 {
        assert(bs.push(b).skip(1) =~= Seq::<u8>::empty());
        assert(bs.push(b)[0] == b);
        assert(encode_segment(Seq::<u8>::empty()) =~= Seq::<char>::empty());
        assert(encode_segment(bs.push(b)) =~= encode_byte(b));
    } else {
        assert(bs.push(b).skip(1) =~= bs.skip(1).push(b));
        assert(bs.push(b)[0] == bs[0]);
        lemma_encode_push(bs.skip(1), b);
        assert(encode_segment(bs.push(b)) =~= encode_segment(bs) + encode_byte(b));
    }
}

proof fn lemma_decode_byte(b: u8, rest: Seq<char>)
    ensures
        decode_segment(encode_byte(b) + rest) == seq![b] + decode_segment(rest),
{
    let s = encode_byte(b) + rest;
    if is_unreserved(b) {
        assert(s.skip(1) =~= rest);
        assert(s[0] == b as char);
        assert((b as char) as u8 == b);
    } else {
        assert(s.skip(3) =~= rest);
        let hi = (b / 16) as nat;
        let lo = (b % 16) as nat;
        assert(hex_value(hex_upper(hi)) == hi);
        assert(hex_value(hex_upper(lo)) == lo);
        assert(hi * 16 + lo == b) by (nonlinear_arith)
            requires
                hi == (b / 16) as nat,
                lo == (b % 16) as nat,
        ;
    }
}

/// Percent-decoding the encoded segment gives back the bytes encoded, and
/// the segment holds no character that would end it or start a query or a
/// fragment: a topic always stays one path segment, whatever it holds.
pub proof fn lemma_segment_round_trip(bs: Seq<u8>)
    ensures
        decode_segment(encode_segment(bs)) == bs,
        forall|i: int|
            0 <= i < encode_segment(bs).len() ==> !is_delimiter(#[trigger] encode_segment(bs)[i]),
    decreases bs.len(),
{
    if bs.len() > 0 {
        lemma_segment_round_trip(bs.skip(1));
        lemma_decode_byte(bs[0], encode_segment(bs.skip(1)));
        assert(bs =~= seq![bs[0]] + bs.skip(1));
        let e = encode_byte(bs[0]);
        assert forall|i: int| 0 <= i < e.len() implies !is_delimiter(#[trigger] e[i]) by {
            if is_unreserved(bs[0]) {
                assert(e[i] == bs[0] as char);
            }
        }
        let whole = encode_segment(bs);
        let tail = encode_segment(bs.skip(1));
        assert(whole == e + tail);
        assert forall|i: int| 0 <= i < whole.len() implies !is_delimiter(#[trigger] whole[i]) by {
            if i < e.len() {
                assert(whole[i] == e[i]);
            } else {
                assert(whole[i] == tail[i - e.len()]);
            }
        }
    }
}

fn hex_upper_char(d: u8) -> (c: char)
    requires
        d < 16,
    ensures
        c == hex_upper(d as nat),
{
    if d < 10 {
        (d + 0x30u8) as char
    } else {
        (d - 10 + 0x41u8) as char
    }
}

/// Appends the percent-encoded form of `topic` as one path segment: each
/// byte of its UTF-8 text that is not a letter, a digit or one of `-._~`
/// becomes `%` and two uppercase hexadecimal digits.
pub fn push_segment(out: &mut String, topic: &str)
    ensures
        final(out)@ == old(out)@ + encode_segment(topic.spec_bytes()),
{
    let bytes = topic.as_bytes();
    let ghost start = out@;
    let mut i: usize = 0;
    while i < bytes.len()
        invariant
            bytes@ == topic.spec_bytes(),
            i <= bytes@.len(),
            out@ == start + encode_segment(bytes@.take(i as int)),
        decreases bytes@.len() - i,
    {
        let b = bytes[i];
        let ghost before = out@;
        if (0x41 <= b && b <= 0x5a) || (0x61 <= b && b <= 0x7a) || (0x30 <= b && b <= 0x39)
            || b == 0x2d || b == 0x2e || b == 0x5f || b == 0x7e {
            push_char(out, b as char);
        } else {
            push_char(out, '%');
            push_char(out, hex_upper_char(b / 16));
            push_char(out, hex_upper_char(b % 16));
        }
        assert(out@ =~= before + encode_byte(b));
        proof {
            assert(bytes@.take(i + 1) =~= bytes@.take(i as int).push(b));
            lemma_encode_push(bytes@.take(i as int), b);
        }
        i = i + 1;
    }
    assert(bytes@.take(i as int) =~= bytes@);
}

} // verus!
