//! Colours as four bytes: packing, unpacking and the CSS notation.

use vstd::prelude::*;
use vstd::string::StringSliceAdditionalSpecFns;

verus! {

/// A colour as red, green, blue and alpha, each from 0 to 255.
#[derive(Debug, Clone, Copy, PartialEq, Eq, Structural)]
pub struct Rgba8 {
    pub r: u8,
    pub g: u8,
    pub b: u8,
    pub a: u8,
}

/// The colour packed as `0xRRGGBBAA`.
pub open spec fn packed(c: Rgba8) -> int {
    ((c.r as int * 256 + c.g as int) * 256 + c.b as int) * 256 + c.a as int
}

/// The colour that `0xRRGGBBAA` packs.
pub open spec fn unpacked(rgba: u32) -> Rgba8 {
    Rgba8 {
        r: (rgba as int / 0x100_0000) as u8,
        g: (rgba as int / 0x1_0000 % 256) as u8,
        b: (rgba as int / 0x100 % 256) as u8,
        a: (rgba as int % 256) as u8,
    }
}

/// The value of a hexadecimal digit, in either case.
pub open spec fn hex_digit(b: u8) -> Option<int> {
    if 0x30 <= b <= 0x39 {
        Some(b - 0x30)
    } else if 0x41 <= b <= 0x46 {
        Some(b - 0x41 + 10)
    } else if 0x61 <= b <= 0x66 {
        Some(b - 0x61 + 10)
    } else {
        None
    }
}

/// The number that a run of hexadecimal digits writes, or `None` if one of
/// them is no digit. The empty run writes zero.
pub open spec fn hex_value(digits: Seq<u8>) -> Option<int>
    decreases digits.len(),
{
    if digits.len() == 0 {
        Some(0)
    } else {
        match (hex_value(digits.drop_last()), hex_digit(digits.last())) {
            (Some(high), Some(low)) => Some(high * 16 + low),
            _ => None,
        }
    }
}

/// The number that `text` writes in hexadecimal: at least one digit, with
/// one plus sign allowed before them.
pub open spec fn hex_number(text: Seq<u8>) -> Option<int> {
    let digits = if text.len() > 0 && text[0] == 0x2b {
        text.drop_first()
    } else {
        text
    };
    if digits.len() == 0 {
        None
    } else {
        hex_value(digits)
    }
}

/// The packed colour that `text` writes in the CSS notation: `RRGGBB`, which
/// is opaque, or `RRGGBBAA`, each with or without `#` before it.
pub open spec fn css_value(text: Seq<u8>) -> Option<int> {
    let body = if text.len() > 0 && text[0] == 0x23 {
        text.drop_first()
    } else {
        text
    };
    if body.len() == 6 {
        match hex_number(body) {
            Some(v) => Some(v * 256 + 255),
            None => None,
        }
    } else if body.len() == 8 {
        hex_number(body)
    } else {
        None
    }
}

proof fn lemma_hex_value_bound(digits: Seq<u8>)
    requires
        digits.len() <= 8,
    ensures
        hex_value(digits) matches Some(v) ==> 0 <= v < pow16(digits.len()),
    decreases digits.len(),
{
    if digits.len() > 0 {
        lemma_hex_value_bound(digits.drop_last());
    }
}

/// Sixteen to the power of `n`.
pub open spec fn pow16(n: nat) -> int
    decreases n,
{
    if n == 0 {
        1
    } else {
        16 * pow16((n - 1) as nat)
    }
}

fn digit_value(b: u8) -> (value: Option<u32>)
    ensures
        match value {
            Some(v) => hex_digit(b) == Some(v as int) && v < 16,
            None => hex_digit(b) is None,
        },
{
    if 0x30 <= b && b <= 0x39 {
        Some((b - 0x30) as u32)
    } else if 0x41 <= b && b <= 0x46 {
        Some((b - 0x41 + 10) as u32)
    } else if 0x61 <= b && b <= 0x66 {
        Some((b - 0x61 + 10) as u32)
    } else {
        None
    }
}

fn parse_hex(text: &[u8], from: usize) -> (number: Option<u32>)
    requires
        from <= text@.len(),
        text@.len() - from <= 8,
    ensures
        match number {
            Some(v) => hex_number(text@.subrange(from as int, text@.len() as int)) == Some(v as int),
            None => hex_number(text@.subrange(from as int, text@.len() as int)) is None,
        },
{
    let ghost whole = text@.subrange(from as int, text@.len() as int);
    let mut start = from;
    if start < text.len() && text[start] == 0x2b {
        start += 1;
    }
    let ghost run = text@.subrange(start as int, text@.len() as int);
    proof {
        if start > from {
            assert(whole[0] == 0x2b);
            assert(whole.drop_first() =~= run);
        } else {
            if whole.len() > 0 {
                assert(whole[0] == text@[from as int]);
            }
            assert(whole =~= run);
        }
    }
    if start == text.len() {
        return None;
    }
    let mut value: u32 = 0;
    let mut i = start;
    assert(hex_number(whole) == hex_value(run));
    assert(run.subrange(0, 0) =~= Seq::<u8>::empty());
    while i < text.len()
        invariant
            start <= i <= text@.len(),
            text@.len() - start <= 8,
            run == text@.subrange(start as int, text@.len() as int),
            whole == text@.subrange(from as int, text@.len() as int),
            hex_number(whole) == hex_value(run),
            hex_value(run.subrange(0, i - start)) == Some(value as int),
            value < pow16((i - start) as nat),
        decreases text.len() - i,
    {
        let ghost upto = run.subrange(0, i - start);
        let ghost next = run.subrange(0, i + 1 - start);
        proof {
            assert(next.drop_last() =~= upto);
            assert(next.last() == text@[i as int]);
            lemma_pow16_step((i - start) as nat);
        }
        match digit_value(text[i]) {
            Some(d) => {
                assert(pow16(8) == 0x1_0000_0000) by {
                    lemma_pow16_eight();
                }
                assert(pow16((i + 1 - start) as nat) <= pow16(8)) by {
                    lemma_pow16_monotonic((i + 1 - start) as nat, 8);
                }
                value = value * 16 + d;
            },
            None => {
                proof {
                    assert(hex_value(next) is None);
                    lemma_hex_value_prefix_fails(run, i + 1 - start);
                    assert(hex_number(whole) == hex_value(run));
                }
                return None;
            },
        }
        i += 1;
    }
    proof {
        assert(run.subrange(0, run.len() as int) =~= run);
    }
    Some(value)
}

proof fn lemma_pow16_step(n: nat)
    ensures
        pow16(n + 1) == 16 * pow16(n),
        pow16(n) >= 1,
    decreases n,
{
    if n > 0 {
        lemma_pow16_step((n - 1) as nat);
    }
}

proof fn lemma_pow16_monotonic(a: nat, b: nat)
    requires
        a <= b,
    ensures
        pow16(a) <= pow16(b),
    decreases b,
{
    if a < b {
        lemma_pow16_monotonic(a, (b - 1) as nat);
        lemma_pow16_step((b - 1) as nat);
    }
}

proof fn lemma_pow16_eight()
    ensures
        pow16(8) == 0x1_0000_0000,
{
    reveal_with_fuel(pow16, 9);
}

proof fn lemma_hex_value_prefix_fails(digits: Seq<u8>, n: int)
    requires
        0 <= n <= digits.len(),
        hex_value(digits.subrange(0, n)) is None,
    ensures
        hex_value(digits) is None,
    decreases digits.len() - n,
{
    if n < digits.len() {
        assert(digits.subrange(0, n + 1).drop_last() =~= digits.subrange(0, n));
        lemma_hex_value_prefix_fails(digits, n + 1);
    } else {
        assert(digits.subrange(0, n) =~= digits);
    }
}

impl Rgba8 {
    /// An opaque colour.
    pub fn rgb(r: u8, g: u8, b: u8) -> (color: Rgba8)
        ensures
            color == (Rgba8 { r, g, b, a: 255 }),
    {
        Rgba8 { r, g, b, a: 255 }
    }

    /// A colour with alpha.
    pub fn rgba(r: u8, g: u8, b: u8, a: u8) -> (color: Rgba8)
        ensures
            color == (Rgba8 { r, g, b, a }),
    {
        Rgba8 { r, g, b, a }
    }

    /// The colour that `0xRRGGBBAA` packs.
    pub fn hex(rgba: u32) -> (color: Rgba8)
        ensures
            color == unpacked(rgba),
            packed(color) == rgba,
    {
        Rgba8 {
            r: (rgba / 0x100_0000) as u8,
            g: (rgba / 0x1_0000 % 256) as u8,
            b: (rgba / 0x100 % 256) as u8,
            a: (rgba % 256) as u8,
        }
    }

    /// The colour packed as `0xRRGGBBAA`.
    pub fn to_hex(self) -> (rgba: u32)
        ensures
            rgba == packed(self),
            unpacked(rgba) == self,
    {
        ((self.r as u32 * 256 + self.g as u32) * 256 + self.b as u32) * 256 + self.a as u32
    }

    /// Reads a colour in the CSS notation: `#RRGGBB` or `#RRGGBBAA`, with
    /// the `#` optional.
    pub fn css(s: &str) -> (color: Option<Rgba8>)
        ensures
            match color {
                Some(c) => css_value(s.spec_bytes()) == Some(packed(c)),
                None => css_value(s.spec_bytes()) is None,
            },
    {
        let bytes = s.as_bytes();
        let from: usize = if bytes.len() > 0 && bytes[0] == 0x23 {
            1
        } else {
            0
        };
        let ghost body = bytes@.subrange(from as int, bytes@.len() as int);
        proof {
            if from == 1 {
                assert(body =~= bytes@.drop_first());
            } else {
                assert(body =~= bytes@);
            }
        }
        let len = bytes.len() - from;
        if len == 6 {
            match parse_hex(bytes, from) {
                Some(v) => {
                    proof {
                        let digits = if body[0] == 0x2b {
                            body.drop_first()
                        } else {
                            body
                        };
                        lemma_hex_value_bound(digits);
                        lemma_pow16_monotonic(digits.len(), 6);
                        reveal_with_fuel(pow16, 7);
                    }
                    Some(Rgba8::hex(v * 256 + 255))
                },
                None => None,
            }
        } else if len == 8 {
            match parse_hex(bytes, from) {
                Some(v) => Some(Rgba8::hex(v)),
                None => None,
            }
        } else {
            None
        }
    }
}

impl From<(u8, u8, u8)> for Rgba8 {
    fn from(channels: (u8, u8, u8)) -> (color: Rgba8) {
        Rgba8 { r: channels.0, g: channels.1, b: channels.2, a: 255 }
    }
}

impl vstd::std_specs::convert::FromSpecImpl<(u8, u8, u8)> for Rgba8 {
    open spec fn obeys_from_spec() -> bool {
        true
    }

    open spec fn from_spec(channels: (u8, u8, u8)) -> Rgba8 {
        Rgba8 { r: channels.0, g: channels.1, b: channels.2, a: 255 }
    }
}

impl From<(u8, u8, u8, u8)> for Rgba8 {
    fn from(channels: (u8, u8, u8, u8)) -> (color: Rgba8) {
        Rgba8 { r: channels.0, g: channels.1, b: channels.2, a: channels.3 }
    }
}

impl vstd::std_specs::convert::FromSpecImpl<(u8, u8, u8, u8)> for Rgba8 {
    open spec fn obeys_from_spec() -> bool {
        true
    }

    open spec fn from_spec(channels: (u8, u8, u8, u8)) -> Rgba8 {
        Rgba8 { r: channels.0, g: channels.1, b: channels.2, a: channels.3 }
    }
}

impl From<u32> for Rgba8 {
    fn from(hex: u32) -> (color: Rgba8) {
        Rgba8 {
            r: (hex / 0x100_0000) as u8,
            g: (hex / 0x1_0000 % 256) as u8,
            b: (hex / 0x100 % 256) as u8,
            a: (hex % 256) as u8,
        }
    }
}

impl vstd::std_specs::convert::FromSpecImpl<u32> for Rgba8 {
    open spec fn obeys_from_spec() -> bool {
        true
    }

    open spec fn from_spec(hex: u32) -> Rgba8 {
        unpacked(hex)
    }
}

} // verus!
