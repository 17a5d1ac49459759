//! The accent color option: either the terminal's own foreground or
//! an RGB triple, parsed from a `#rrggbb` string and rendered back
//! through `colorsys`.

use vstd::prelude::*;
use vstd::string::*;

use crate::strutil::{chars_of, str_eq};

verus! {

/// The accent color: the terminal default, or a fixed RGB value.
#[derive(Clone, Copy, PartialEq, Eq, Structural, Debug)]
pub enum ColorValue {
    Reset,
    Rgb(u8, u8, u8),
}

/// The lowercase hex digit for `d` (`d < 16`).
pub open spec fn hex_digit_char(d: nat) -> char {
    if d < 10 {
        crate::strutil::digit_char(d)
    } else if d == 10 {
        'a'
    } else if d == 11 {
        'b'
    } else if d == 12 {
        'c'
    } else if d == 13 {
        'd'
    } else if d == 14 {
        'e'
    } else {
        'f'
    }
}

/// The two lowercase hex digits of a byte.
pub open spec fn hex_byte(n: nat) -> Seq<char> {
    seq![hex_digit_char(n / 16), hex_digit_char(n % 16)]
}

/// The `#rrggbb` rendering of an RGB triple, lowercase.
pub open spec fn hex_color_spec(r: u8, g: u8, b: u8) -> Seq<char> {
    seq!['#'] + hex_byte(r as nat) + hex_byte(g as nat) + hex_byte(b as nat)
}

/// Relies on `colorsys::Rgb::to_hex_string`: for whole-number
/// channels it renders `#` followed by two lowercase, zero-padded
/// hex digits per channel.
#[verifier::external_body]
fn rgb_hex_string(r: u8, g: u8, b: u8) -> (s: String)
    ensures
        s@ == hex_color_spec(r, g, b),
{
    colorsys::Rgb::from((r, g, b)).to_hex_string()
}

/// The numeric value of a hex digit character, if it is one.
pub open spec fn hex_digit_val(c: char) -> Option<nat> {
    if '0' <= c <= '9' {
        Option::Some((c as int - '0' as int) as nat)
    } else if 'a' <= c <= 'f' {
        Option::Some((c as int - 'a' as int + 10) as nat)
    } else if 'A' <= c <= 'F' {
        Option::Some((c as int - 'A' as int + 10) as nat)
    } else {
        Option::None
    }
}

/// True iff `s` is `#` followed by six hex digits.
pub open spec fn is_hex_color(s: Seq<char>) -> bool {
    s.len() == 7 && s[0] == '#' && forall|i: int| 1 <= i < 7 ==> (#[trigger] hex_digit_val(
        s[i],
    )) is Some
}

/// The channel encoded at positions `i`, `i + 1` of a hex color.
pub open spec fn hex_pair_val(s: Seq<char>, i: int) -> nat
    recommends
        is_hex_color(s),
        i == 1 || i == 3 || i == 5,
{
    (match hex_digit_val(s[i]) {
        Option::Some(h) => h,
        Option::None => 0,
    }) * 16 + (match hex_digit_val(s[i + 1]) {
        Option::Some(l) => l,
        Option::None => 0,
    })
}

fn hex_digit(c: char) -> (r: Option<u8>)
    ensures
        r is Some <==> hex_digit_val(c) is Some,
        r is Some ==> r->0 == hex_digit_val(c)->0,
{
    if '0' <= c && c <= '9' {
        Some(((c as u32) - ('0' as u32)) as u8)
    } else if 'a' <= c && c <= 'f' {
        Some(((c as u32) - ('a' as u32) + 10) as u8)
    } else if 'A' <= c && c <= 'F' {
        Some(((c as u32) - ('A' as u32) + 10) as u8)
    } else {
        None
    }
}

impl ColorValue {
    /// Parses a color setting: `reset` keeps the terminal default; a
    /// `#rrggbb` string gives a fixed color; anything else falls back
    /// to the terminal default.
    pub fn parse(s: &str) -> (r: ColorValue)
        ensures
            s@ == "reset"@ ==> r == ColorValue::Reset,
            is_hex_color(s@) ==> r == ColorValue::Rgb(
                hex_pair_val(s@, 1) as u8,
                hex_pair_val(s@, 3) as u8,
                hex_pair_val(s@, 5) as u8,
            ),
            !(s@ == "reset"@ || is_hex_color(s@)) ==> r == ColorValue::Reset,
    {
        proof {
            reveal_strlit("reset");
        }
        if str_eq(s, "reset") {
            return ColorValue::Reset;
        }
        let v = chars_of(s);
        if v.len() != 7 {
            return ColorValue::Reset;
        }
        if v[0] != '#' {
            return ColorValue::Reset;
        }
        let d1 = hex_digit(v[1]);
        let d2 = hex_digit(v[2]);
        let d3 = hex_digit(v[3]);
        let d4 = hex_digit(v[4]);
        let d5 = hex_digit(v[5]);
        let d6 = hex_digit(v[6]);
        match (d1, d2, d3, d4, d5, d6) {
            (Some(h1), Some(l1), Some(h2), Some(l2), Some(h3), Some(l3)) => {
                proof {
                    assert forall|i: int| 1 <= i < 7 implies (#[trigger] hex_digit_val(
                        s@[i],
                    )) is Some by {
                        assert(s@[1] == v@[1] && s@[2] == v@[2] && s@[3] == v@[3] && s@[4] == v@[4]
                            && s@[5] == v@[5] && s@[6] == v@[6]);
                    }
                    assert(is_hex_color(s@));
                }
                ColorValue::Rgb(h1 * 16 + l1, h2 * 16 + l2, h3 * 16 + l3)
            },
            _ => {
                proof {
                    if is_hex_color(s@) {
                        assert(hex_digit_val(s@[1]) is Some);
                        assert(hex_digit_val(s@[2]) is Some);
                        assert(hex_digit_val(s@[3]) is Some);
                        assert(hex_digit_val(s@[4]) is Some);
                        assert(hex_digit_val(s@[5]) is Some);
                        assert(hex_digit_val(s@[6]) is Some);
                        assert(false);
                    }
                }
                ColorValue::Reset
            },
        }
    }

    /// The color's rendering: `reset`, or its lowercase `#rrggbb`
    /// form.
    pub fn render(&self) -> (r: String)
        ensures
            *self is Reset ==> r@ == "reset"@,
            (*self) matches ColorValue::Rgb(cr, cg, cb) ==> r@ == hex_color_spec(cr, cg, cb),
    {
        match *self {
            ColorValue::Reset => "reset".to_owned(),
            ColorValue::Rgb(cr, cg, cb) => rgb_hex_string(cr, cg, cb),
        }
    }
}

} // verus!
