use vstd::prelude::*;

verus! {

/// A colour in one of the three formats that ANSI SGR escape sequences
/// support.
///
/// - `Term(x)`: the 4-bit palette, indices 0 to 15; bit 3 selects the
///   bright variant and the upper four bits are silently ignored.
/// - `Byte(x)`: the 8-bit palette, indices 0 to 255.
/// - `RGB(r, g, b)`: 24-bit truecolour.
#[derive(Clone, Copy, PartialEq, Eq, Debug)]
pub enum Colour {
    Term(u8),
    Byte(u8),
    RGB(u8, u8, u8),
}

/// The decimal digits of `x`, most significant first, without leading
/// zeroes, as ASCII bytes.
pub open spec fn dec_digits(x: u8) -> Seq<u8> {
    if x < 10 {
        seq![(0x30 + x) as u8]
    } else if x < 100 {
        seq![(0x30 + x / 10) as u8, (0x30 + x % 10) as u8]
    } else {
        seq![(0x30 + x / 100) as u8, (0x30 + (x / 10) % 10) as u8, (0x30 + x % 10) as u8]
    }
}

/// The two bytes every escape sequence here opens with: ESC `[`.
pub open spec fn csi_prefix() -> Seq<u8> {
    seq![0x1bu8, 0x5bu8]
}

/// The SGR code for a 4-bit palette colour: `base` (30 foreground,
/// 40 background) plus the low three index bits, plus 60 when bit 3
/// (the bright flag) is set.
pub open spec fn term_code(x: u8, base: u8) -> u8 {
    (base + (x & 0x07) + if x & 0x08 == 0x08 { 60u8 } else { 0u8 }) as u8
}

/// The SGR escape sequence selecting colour `c`, with `base` 30 for the
/// foreground or 40 for the background.
pub open spec fn sgr_seq(c: Colour, base: u8) -> Seq<u8> {
    match c {
        Colour::Term(x) => csi_prefix() + dec_digits(term_code(x, base)) + seq![0x6du8],
        Colour::Byte(x) => csi_prefix() + dec_digits((base + 8) as u8) + seq![0x3bu8, 0x35u8, 0x3bu8]
            + dec_digits(x) + seq![0x6du8],
        Colour::RGB(r, g, b) => csi_prefix() + dec_digits((base + 8) as u8)
            + seq![0x3bu8, 0x32u8, 0x3bu8] + dec_digits(r) + seq![0x3bu8] + dec_digits(g) + seq![0x3bu8]
            + dec_digits(b) + seq![0x6du8],
    }
}

/// The escape sequence that sets the foreground to `c`.
pub open spec fn fg_seq(c: Colour) -> Seq<u8> {
    sgr_seq(c, 30)
}

/// The escape sequence that sets the background to `c`.
pub open spec fn bg_seq(c: Colour) -> Seq<u8> {
    sgr_seq(c, 40)
}

/// The "reset all attributes" escape sequence: ESC `[0m`.
pub open spec fn style_clear_seq() -> Seq<u8> {
    csi_prefix() + seq![0x30u8, 0x6du8]
}

/// The escape sequence that enters (`h`) or leaves (`l`) the alternate
/// screen buffer: ESC `[?1049h` or ESC `[?1049l`.
pub open spec fn fullscreen_seq(on: bool) -> Seq<u8> {
    csi_prefix() + seq![0x3fu8, 0x31u8, 0x30u8, 0x34u8, 0x39u8, if on { 0x68u8 } else { 0x6cu8 }]
}

/// Append the decimal digits of `x`, without leading zeroes, to `v`.
pub fn push_dec(v: &mut Vec<u8>, x: u8)
    ensures
        final(v)@ == old(v)@ + dec_digits(x),
{
    if x >= 100 {
        v.push(0x30 + x / 100);
    }
    if x >= 10 {
        v.push(0x30 + (x / 10) % 10);
    }
    v.push(0x30 + x % 10);
    assert(final(v)@ =~= old(v)@ + dec_digits(x));
}

/// Build the SGR sequence selecting `c` with the given base code.
fn sgr_bytes(c: Colour, base: u8) -> (v: Vec<u8>)
    requires
        base == 30 || base == 40,
    ensures
        v@ == sgr_seq(c, base),
{
    let mut v: Vec<u8> = Vec::new();
    v.push(0x1b);
    v.push(0x5bu8);
    match c {
        Colour::Term(x) => {
            assert(x & 0x07 <= 7) by (bit_vector);
            let code: u8 = base + (x & 0x07) + if x & 0x08 == 0x08 { 60 } else { 0 };
            push_dec(&mut v, code);
        },
        Colour::Byte(x) => {
            push_dec(&mut v, base + 8);
            v.push(0x3bu8);
            v.push(0x35u8);
            v.push(0x3bu8);
            push_dec(&mut v, x);
        },
        Colour::RGB(r, g, b) => {
            push_dec(&mut v, base + 8);
            v.push(0x3bu8);
            v.push(0x32u8);
            v.push(0x3bu8);
            push_dec(&mut v, r);
            v.push(0x3bu8);
            push_dec(&mut v, g);
            v.push(0x3bu8);
            push_dec(&mut v, b);
        },
    }
    v.push(0x6du8);
    assert(v@ =~= sgr_seq(c, base));
    v
}

/// The full escape sequence that sets the foreground colour to `c`.
pub fn foreground_bytes(c: Colour) -> (v: Vec<u8>)
    ensures
        v@ == fg_seq(c),
{
    sgr_bytes(c, 30)
}

/// The full escape sequence that sets the background colour to `c`.
pub fn background_bytes(c: Colour) -> (v: Vec<u8>)
    ensures
        v@ == bg_seq(c),
{
    sgr_bytes(c, 40)
}

/// The "reset all attributes" escape sequence.
pub fn style_clear_bytes() -> (v: Vec<u8>)
    ensures
        v@ == style_clear_seq(),
{
    let mut v: Vec<u8> = Vec::new();
    v.push(0x1b);
    v.push(0x5bu8);
    v.push(0x30u8);
    v.push(0x6du8);
    assert(v@ =~= style_clear_seq());
    v
}

/// The escape sequence that enters or leaves the alternate screen buffer.
pub fn fullscreen_bytes(on: bool) -> (v: Vec<u8>)
    ensures
        v@ == fullscreen_seq(on),
{
    let mut v: Vec<u8> = Vec::new();
    v.push(0x1b);
    v.push(0x5bu8);
    v.push(0x3fu8);
    v.push(0x31u8);
    v.push(0x30u8);
    v.push(0x34u8);
    v.push(0x39u8);
    v.push(if on { 0x68u8 } else { 0x6cu8 });
    assert(v@ =~= fullscreen_seq(on));
    v
}

} // verus!
