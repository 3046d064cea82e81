use vstd::prelude::*;

use vstd::utf8::encode_scalar;
use vstd::utf8::has_width_1_encoding;
use vstd::utf8::has_width_2_encoding;
use vstd::utf8::has_width_3_encoding;
use vstd::utf8::is_scalar;
use vstd::utf8::char_is_scalar;

verus! {

/// Number of leading one bits in `b`, stated by value range: a byte
/// below 0x80 starts with a zero bit, one in 0x80..0xC0 with exactly one
/// one bit, and so on up to 0xFF, which is all ones.
pub open spec fn lead_ones(b: u8) -> int {
    if b < 0x80 {
        0
    } else if b < 0xC0 {
        1
    } else if b < 0xE0 {
        2
    } else if b < 0xF0 {
        3
    } else if b < 0xF8 {
        4
    } else if b < 0xFC {
        5
    } else if b < 0xFE {
        6
    } else if b < 0xFF {
        7
    } else {
        8
    }
}

/// The mask keeping the low `8 - l` bits of a lead byte that announces a
/// sequence of `l` bytes.
pub open spec fn lead_mask(l: int) -> u8
    recommends
        2 <= l <= 4,
{
    if l == 2 {
        0x3f
    } else if l == 3 {
        0x1f
    } else {
        0x0f
    }
}

/// One decoding step: shift the accumulator six bits left and merge the
/// low six bits of the next byte.
pub open spec fn acc_step(acc: u32, b: u8) -> u32 {
    (acc << 6) | ((b & 0x3f) as u32)
}

/// The accumulator after merging every byte of `rest`, in order.
pub open spec fn acc_fold(acc: u32, rest: Seq<u8>) -> u32
    decreases rest.len(),
{
    if rest.len() == 0 {
        acc
    } else {
        acc_fold(acc_step(acc, rest[0]), rest.skip(1))
    }
}

/// The code-point value assembled from `bytes`, whose first byte
/// announces a sequence of `bytes.len()` bytes: the lead byte's low
/// `8 - len` bits, then six bits merged from each following byte.
pub open spec fn assembled_value(bytes: Seq<u8>) -> u32
    recommends
        2 <= lead_ones(bytes[0]) <= 4,
        bytes.len() == lead_ones(bytes[0]),
{
    acc_fold(((bytes[0] & lead_mask(lead_ones(bytes[0]))) as u32), bytes.skip(1))
}

/// Number of leading one bits in `b`.
pub fn lead_ones_count(b: u8) -> (r: usize)
    ensures
        r == lead_ones(b),
{
    if b < 0x80 {
        0
    } else if b < 0xC0 {
        1
    } else if b < 0xE0 {
        2
    } else if b < 0xF0 {
        3
    } else if b < 0xF8 {
        4
    } else if b < 0xFC {
        5
    } else if b < 0xFE {
        6
    } else if b < 0xFF {
        7
    } else {
        8
    }
}

/// Relies on `char::from_u32` of std: the conversion succeeds exactly on
/// Unicode scalar values (everything up to 0x10FFFF except the surrogate
/// range) and the resulting `char` carries the given value.
pub assume_specification[ char::from_u32 ](v: u32) -> (r: Option<char>)
    ensures
        r is Some <==> is_scalar(v),
        r matches Some(c) ==> c as u32 == v,
;

/// Folding one more byte is one more step on the fold so far.
pub proof fn lemma_acc_fold_snoc(acc: u32, s: Seq<u8>, b: u8)
    ensures
        acc_fold(acc, s.push(b)) == acc_step(acc_fold(acc, s), b),
    decreases s.len(),
{
    if s.len() == 0 {
        assert(s.push(b).skip(1) =~= Seq::<u8>::empty());
        assert(s =~= Seq::<u8>::empty());
        assert(acc_fold(acc_step(acc, b), Seq::<u8>::empty()) == acc_step(acc, b));
    } else {
        assert(s.push(b)[0] == s[0]);
        assert(s.push(b).skip(1) =~= s.skip(1).push(b));
        lemma_acc_fold_snoc(acc_step(acc, s[0]), s.skip(1), b);
    }
}

/// UTF-8 decode correctness, stated against the standard encoding: for
/// every Unicode scalar value (every `char`), the UTF-8 byte sequence of
/// that scalar announces its own length in the lead byte's leading one
/// bits (zero of them for a single byte), and assembling the announced
/// bytes yields exactly the scalar's value back.
pub proof fn lemma_utf8_round_trip(c: char)
    ensures
        ({
            let v = c as u32;
            let e = encode_scalar(v);
            &&& is_scalar(v)
            &&& 1 <= e.len() <= 4
            &&& (e.len() == 1 ==> lead_ones(e[0]) == 0 && e[0] == v)
            &&& (e.len() >= 2 ==> lead_ones(e[0]) == e.len() && assembled_value(e) == v)
        }),
{
    char_is_scalar(c);
    let v = c as u32;
    let e = encode_scalar(v);
    if has_width_1_encoding(v) {
        let b0: u8 = e[0];
        assert(b0 < 0x80 && b0 == v) by (bit_vector)
            requires
                b0 == ((v & 0x7F) as u8),
                v <= 0x7F,
        ;
    } else if has_width_2_encoding(v) {
        let b0: u8 = e[0];
        let b1: u8 = e[1];
        assert(0xC0 <= b0 < 0xE0 && ((((b0 & 0x3f) as u32) << 6) | ((b1 & 0x3f) as u32)) == v)
            by (bit_vector)
            requires
                b0 == 0xC0u8 | (((v >> 6) & 0x1F) as u8),
                b1 == 0x80u8 | ((v & 0x3F) as u8),
                0x80 <= v <= 0x7FF,
        ;
        let a0: u32 = (b0 & lead_mask(2)) as u32;
        assert(e.skip(1) =~= Seq::<u8>::empty().push(b1));
        lemma_acc_fold_snoc(a0, Seq::<u8>::empty(), b1);
        assert(assembled_value(e) == acc_step(a0, b1));
    } else if has_width_3_encoding(v) {
        let b0: u8 = e[0];
        let b1: u8 = e[1];
        let b2: u8 = e[2];
        assert(0xE0 <= b0 < 0xF0 && ((((((b0 & 0x1f) as u32) << 6) | ((b1 & 0x3f) as u32)) << 6)
            | ((b2 & 0x3f) as u32)) == v) by (bit_vector)
            requires
                b0 == 0xE0u8 | (((v >> 12) & 0x0F) as u8),
                b1 == 0x80u8 | (((v >> 6) & 0x3F) as u8),
                b2 == 0x80u8 | ((v & 0x3F) as u8),
                0x800 <= v <= 0xFFFF && !(0xD800 <= v <= 0xDFFF),
        ;
        let a0: u32 = (b0 & lead_mask(3)) as u32;
        assert(e.skip(1) =~= Seq::<u8>::empty().push(b1).push(b2));
        lemma_acc_fold_snoc(a0, Seq::<u8>::empty().push(b1), b2);
        lemma_acc_fold_snoc(a0, Seq::<u8>::empty(), b1);
        assert(assembled_value(e) == acc_step(acc_step(a0, b1), b2));
    } else {
        let b0: u8 = e[0];
        let b1: u8 = e[1];
        let b2: u8 = e[2];
        let b3: u8 = e[3];
        assert(0xF0 <= b0 < 0xF8 && ((((((((b0 & 0x0f) as u32) << 6) | ((b1 & 0x3f) as u32)) << 6)
            | ((b2 & 0x3f) as u32)) << 6) | ((b3 & 0x3f) as u32)) == v) by (bit_vector)
            requires
                b0 == 0xF0u8 | (((v >> 18) & 0x7) as u8),
                b1 == 0x80u8 | (((v >> 12) & 0x3F) as u8),
                b2 == 0x80u8 | (((v >> 6) & 0x3F) as u8),
                b3 == 0x80u8 | ((v & 0x3F) as u8),
                0x10000 <= v <= 0x10FFFF,
        ;
        let a0: u32 = (b0 & lead_mask(4)) as u32;
        assert(e.skip(1) =~= Seq::<u8>::empty().push(b1).push(b2).push(b3));
        lemma_acc_fold_snoc(a0, Seq::<u8>::empty().push(b1).push(b2), b3);
        lemma_acc_fold_snoc(a0, Seq::<u8>::empty().push(b1), b2);
        lemma_acc_fold_snoc(a0, Seq::<u8>::empty(), b1);
        assert(assembled_value(e) == acc_step(acc_step(acc_step(a0, b1), b2), b3));
    }
}

} // verus!
