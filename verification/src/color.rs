use vstd::prelude::*;
use crate::text::push_char;

verus! {

/// An ARGB color stored as the little-endian dword `r | g<<8 | b<<16 |
/// a<<24`.
#[derive(PartialEq, Eq, Structural, Copy, Clone, Hash, PartialOrd, Ord, Debug)]
pub struct Color(pub u32);

impl Color {
    /// The color with the given alpha and channels.
    pub fn argb(a: u8, r: u8, g: u8, b: u8) -> (c: Color)
        ensures
            c.0 == (r as u32) | ((g as u32) << 8) | ((b as u32) << 16) | ((a as u32) << 24),
    {
        Color((r as u32) | ((g as u32) << 8) | ((b as u32) << 16) | ((a as u32) << 24))
    }

    /// The opaque color with the given channels and zero alpha.
    pub fn rgb(r: u8, g: u8, b: u8) -> (c: Color)
        ensures
            c.0 == (r as u32) | ((g as u32) << 8) | ((b as u32) << 16),
    {
        Color((r as u32) | ((g as u32) << 8) | ((b as u32) << 16))
    }

    /// The red channel.
    pub fn r(self) -> (v: u8)
        ensures
            v == (self.0 & 0xFF) as u8,
    {
        (self.0 & 0xFF) as u8
    }

    /// The green channel.
    pub fn g(self) -> (v: u8)
        ensures
            v == ((self.0 >> 8) & 0xFF) as u8,
    {
        ((self.0 >> 8) & 0xFF) as u8
    }

    /// The blue channel.
    pub fn b(self) -> (v: u8)
        ensures
            v == ((self.0 >> 16) & 0xFF) as u8,
    {
        ((self.0 >> 16) & 0xFF) as u8
    }

    /// The alpha channel.
    pub fn a(self) -> (v: u8)
        ensures
            v == ((self.0 >> 24) & 0xFF) as u8,
    {
        ((self.0 >> 24) & 0xFF) as u8
    }
}

/// The value of one hexadecimal digit, if the character is one.
pub open spec fn spec_hex_digit(c: char) -> Option<u8> {
    let u = c as u32;
    if '0' <= c && c <= '9' {
        Some((u - 48) as u8)
    } else if 'a' <= c && c <= 'f' {
        Some((u - 97 + 10) as u8)
    } else if 'A' <= c && c <= 'F' {
        Some((u - 65 + 10) as u8)
    } else {
        None
    }
}

/// The value of one hexadecimal digit, if the character is one.
fn hex_digit(c: char) -> (r: Option<u8>)
    ensures
        r == spec_hex_digit(c),
        r matches Some(v) ==> v < 16,
{
    let u = c as u32;
    if '0' <= c && c <= '9' {
        Some((u - 48) as u8)
    } else if 'a' <= c && c <= 'f' {
        Some((u - 97 + 10) as u8)
    } else if 'A' <= c && c <= 'F' {
        Some((u - 65 + 10) as u8)
    } else {
        None
    }
}

/// The byte written by two hexadecimal digits, if both characters are
/// digits.
pub open spec fn spec_hex_byte(hi: char, lo: char) -> Option<u8> {
    match (spec_hex_digit(hi), spec_hex_digit(lo)) {
        (Option::Some(h), Option::Some(l)) => Some(((h as u32) * 16 + (l as u32)) as u8),
        _ => None,
    }
}

/// The byte written by two hexadecimal digits, if both characters are
/// digits.
fn hex_byte(hi: char, lo: char) -> (r: Option<u8>)
    ensures
        r == spec_hex_byte(hi, lo),
{
    match (hex_digit(hi), hex_digit(lo)) {
        (Option::Some(h), Option::Some(l)) => Some((h * 16 + l) as u8),
        _ => None,
    }
}

/// The color a text names: `#RRGGBB` with zero alpha, or `#AARRGGBB`;
/// nothing else parses.
pub open spec fn spec_parse_color(s: Seq<char>) -> Option<Color> {
    if s.len() != 7 && s.len() != 9 {
        None
    } else if s[0] != '#' {
        None
    } else {
        match (spec_hex_byte(s[1], s[2]), spec_hex_byte(s[3], s[4]), spec_hex_byte(s[5], s[6])) {
            (Option::Some(x), Option::Some(y), Option::Some(z)) => if s.len() == 7 {
                Some(Color((x as u32) | ((y as u32) << 8) | ((z as u32) << 16)))
            } else {
                match spec_hex_byte(s[7], s[8]) {
                    Option::Some(w) => Some(
                        Color((y as u32) | ((z as u32) << 8) | ((w as u32) << 16) | ((x as u32)
                            << 24)),
                    ),
                    Option::None => None,
                }
            },
            _ => None,
        }
    }
}

impl Color {
    /// Parses `#RRGGBB` (zero alpha) or `#AARRGGBB`.
    pub fn parse(s: &str) -> (r: Result<Color, ()>)
        ensures
            r matches Ok(c) ==> spec_parse_color(s@) == Some(c),
            r is Err <==> spec_parse_color(s@) is None,
    {
        let len = s.unicode_len();
        if len != 7 && len != 9 {
            return Err(());
        }
        if s.get_char(0) != '#' {
            return Err(());
        }
        let x = match hex_byte(s.get_char(1), s.get_char(2)) {
            Option::Some(v) => v,
            Option::None => {
                return Err(());
            },
        };
        let y = match hex_byte(s.get_char(3), s.get_char(4)) {
            Option::Some(v) => v,
            Option::None => {
                return Err(());
            },
        };
        let z = match hex_byte(s.get_char(5), s.get_char(6)) {
            Option::Some(v) => v,
            Option::None => {
                return Err(());
            },
        };
        if len == 7 {
            Ok(Color::rgb(x, y, z))
        } else {
            let w = match hex_byte(s.get_char(7), s.get_char(8)) {
                Option::Some(v) => v,
                Option::None => {
                    return Err(());
                },
            };
            Ok(Color::argb(x, y, z, w))
        }
    }

    /// The color written as `#AARRGGBB` with upper-case digits.
    pub fn display_string(&self) -> (r: String)
        ensures
            r@ == seq![
                '#',
                spec_upper_hex_char(((self.0 >> 24) & 0xFF) / 16),
                spec_upper_hex_char(((self.0 >> 24) & 0xFF) % 16),
                spec_upper_hex_char((self.0 & 0xFF) / 16),
                spec_upper_hex_char((self.0 & 0xFF) % 16),
                spec_upper_hex_char(((self.0 >> 8) & 0xFF) / 16),
                spec_upper_hex_char(((self.0 >> 8) & 0xFF) % 16),
                spec_upper_hex_char(((self.0 >> 16) & 0xFF) / 16),
                spec_upper_hex_char(((self.0 >> 16) & 0xFF) % 16),
            ],
    {
        let mut out = String::new();
        push_char(&mut out, '#');
        let a = self.a();
        let r = self.r();
        let g = self.g();
        let b = self.b();
        push_hex_byte(&mut out, a);
        push_hex_byte(&mut out, r);
        push_hex_byte(&mut out, g);
        push_hex_byte(&mut out, b);
        proof {
            let d = self.0;
            assert((d >> 24) & 0xFF < 256 && (d & 0xFF) < 256 && (d >> 8) & 0xFF < 256 && (d >> 16)
                & 0xFF < 256) by (bit_vector);
            assert(out@ =~= seq![
                '#',
                spec_upper_hex_char(((self.0 >> 24) & 0xFF) / 16),
                spec_upper_hex_char(((self.0 >> 24) & 0xFF) % 16),
                spec_upper_hex_char((self.0 & 0xFF) / 16),
                spec_upper_hex_char((self.0 & 0xFF) % 16),
                spec_upper_hex_char(((self.0 >> 8) & 0xFF) / 16),
                spec_upper_hex_char(((self.0 >> 8) & 0xFF) % 16),
                spec_upper_hex_char(((self.0 >> 16) & 0xFF) / 16),
                spec_upper_hex_char(((self.0 >> 16) & 0xFF) % 16),
            ]);
        }
        out
    }
}

/// The upper-case hexadecimal digit for a value below sixteen.
pub open spec fn spec_upper_hex_char(v: u32) -> char {
    if v < 10 {
        (48 + v) as char
    } else {
        (65 + v - 10) as char
    }
}

/// Appends the two upper-case hexadecimal digits of a byte.
fn push_hex_byte(out: &mut String, v: u8)
    ensures
        final(out)@ == old(out)@.push(spec_upper_hex_char((v as u32) / 16)).push(
            spec_upper_hex_char((v as u32) % 16),
        ),
{
    push_char(out, upper_hex_char(v / 16));
    push_char(out, upper_hex_char(v % 16));
}

/// The upper-case hexadecimal digit for a value below sixteen.
fn upper_hex_char(v: u8) -> (c: char)
    requires
        v < 16,
    ensures
        c == spec_upper_hex_char(v as u32),
{
    if v < 10 {
        (48 + v) as char
    } else {
        (65 + v - 10) as char
    }
}

} // verus!
