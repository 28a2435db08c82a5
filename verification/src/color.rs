//! A fixed-point RGB color with a lossless `#rrggbb` text round-trip and a
//! per-channel inversion used to pick a contrasting text color.

use vstd::prelude::*;
use vstd::string::StrSliceExecFns;
use vstd::string::StringExecFns;

verus! {

/// A color with three 8-bit channels.
#[derive(Clone, Copy, Debug, PartialEq, Eq, Structural)]
pub struct Color {
    pub r: u8,
    pub g: u8,
    pub b: u8,
}

/// Rejection of malformed color text: anything but six hexadecimal digits
/// after an optional leading `#`.
#[derive(Clone, Copy, Debug, PartialEq, Eq, Structural)]
pub enum ParseError {
    InvalidFormat,
}

pub open spec fn is_hex_digit(c: char) -> bool {
    ('0' <= c && c <= '9') || ('a' <= c && c <= 'f') || ('A' <= c && c <= 'F')
}

/// The numeric value of a hexadecimal digit, either case.
pub open spec fn hex_val(c: char) -> int {
    if '0' <= c && c <= '9' {
        c as int - '0' as int
    } else if 'a' <= c && c <= 'f' {
        c as int - 'a' as int + 10
    } else {
        c as int - 'A' as int + 10
    }
}

/// The significant digits of a color string: everything after an optional
/// leading `#`.
pub open spec fn digits_of(s: Seq<char>) -> Seq<char> {
    if s.len() > 0 && s[0] == '#' {
        s.subrange(1, s.len() as int)
    } else {
        s
    }
}

/// A parseable color string: exactly six hexadecimal digits after the
/// optional `#`.
pub open spec fn valid_hex_color(s: Seq<char>) -> bool {
    &&& digits_of(s).len() == 6
    &&& forall|i: int| 0 <= i < 6 ==> is_hex_digit(#[trigger] digits_of(s)[i])
}

/// The channel a two-digit hexadecimal pair decodes to.
pub open spec fn byte_of(hi: char, lo: char) -> u8 {
    (hex_val(hi) * 16 + hex_val(lo)) as u8
}

/// The color a valid hex string decodes to.
pub open spec fn parse_spec(s: Seq<char>) -> Color {
    let d = digits_of(s);
    Color { r: byte_of(d[0], d[1]), g: byte_of(d[2], d[3]), b: byte_of(d[4], d[5]) }
}

/// The lowercase digit character of a value below sixteen.
pub open spec fn hex_digit_char(v: int) -> char {
    if v == 0 {
        '0'
    } else if v == 1 {
        '1'
    } else if v == 2 {
        '2'
    } else if v == 3 {
        '3'
    } else if v == 4 {
        '4'
    } else if v == 5 {
        '5'
    } else if v == 6 {
        '6'
    } else if v == 7 {
        '7'
    } else if v == 8 {
        '8'
    } else if v == 9 {
        '9'
    } else if v == 10 {
        'a'
    } else if v == 11 {
        'b'
    } else if v == 12 {
        'c'
    } else if v == 13 {
        'd'
    } else if v == 14 {
        'e'
    } else if v == 15 {
        'f'
    } else {
        '0'
    }
}

/// An uppercase hexadecimal digit folded to lowercase; other characters are
/// kept as they are.
pub open spec fn lower_hex(c: char) -> char {
    if c == 'A' {
        'a'
    } else if c == 'B' {
        'b'
    } else if c == 'C' {
        'c'
    } else if c == 'D' {
        'd'
    } else if c == 'E' {
        'e'
    } else if c == 'F' {
        'f'
    } else {
        c
    }
}

/// The two lowercase digits of a channel, zero-padded.
pub open spec fn byte_digits(v: u8) -> Seq<char> {
    seq![hex_digit_char(v as int / 16), hex_digit_char(v as int % 16)]
}

/// What `format` emits: a `#` followed by six lowercase digits.
pub open spec fn format_spec(c: Color) -> Seq<char> {
    seq!['#'] + byte_digits(c.r) + byte_digits(c.g) + byte_digits(c.b)
}

/// A valid color string brought to canonical form: `#`-prefixed, lowercase.
pub open spec fn normalize_spec(s: Seq<char>) -> Seq<char> {
    seq!['#'] + digits_of(s).map(|i: int, c: char| lower_hex(c))
}

/// The value of one hexadecimal digit character, `None` for anything else.
fn hex_digit_value(c: char) -> (res: Option<u8>)
    ensures
        res is Some <==> is_hex_digit(c),
        res is Some ==> res->0 as int == hex_val(c) && res->0 < 16,
{
    let u = c as u32;
    if u >= 48 && u <= 57 {
        Some((u - 48) as u8)
    } else if u >= 97 && u <= 102 {
        Some((u - 87) as u8)
    } else if u >= 65 && u <= 70 {
        Some((u - 55) as u8)
    } else {
        None
    }
}

/// The one-character string of a lowercase hexadecimal digit.
fn hex_digit_str(v: u8) -> (res: &'static str)
    requires
        v < 16,
    ensures
        res@ =~= seq![hex_digit_char(v as int)],
{
    if v == 0 {
        proof {
            reveal_strlit("0");
        }
        "0"
    } else if v == 1 {
        proof {
            reveal_strlit("1");
        }
        "1"
    } else if v == 2 {
        proof {
            reveal_strlit("2");
        }
        "2"
    } else if v == 3 {
        proof {
            reveal_strlit("3");
        }
        "3"
    } else if v == 4 {
        proof {
            reveal_strlit("4");
        }
        "4"
    } else if v == 5 {
        proof {
            reveal_strlit("5");
        }
        "5"
    } else if v == 6 {
        proof {
            reveal_strlit("6");
        }
        "6"
    } else if v == 7 {
        proof {
            reveal_strlit("7");
        }
        "7"
    } else if v == 8 {
        proof {
            reveal_strlit("8");
        }
        "8"
    } else if v == 9 {
        proof {
            reveal_strlit("9");
        }
        "9"
    } else if v == 10 {
        proof {
            reveal_strlit("a");
        }
        "a"
    } else if v == 11 {
        proof {
            reveal_strlit("b");
        }
        "b"
    } else if v == 12 {
        proof {
            reveal_strlit("c");
        }
        "c"
    } else if v == 13 {
        proof {
            reveal_strlit("d");
        }
        "d"
    } else if v == 14 {
        proof {
            reveal_strlit("e");
        }
        "e"
    } else {
        proof {
            reveal_strlit("f");
        }
        "f"
    }
}

impl Color {
    /// What `inverse` returns: every channel replaced by its distance from 255.
    pub open spec fn inverse_spec(self) -> Color {
        Color { r: (255 - self.r) as u8, g: (255 - self.g) as u8, b: (255 - self.b) as u8 }
    }

    /// The perceptual-inverse contrast color: each channel becomes `255 - channel`.
    pub fn inverse(self) -> (res: Color)
        ensures
            res == self.inverse_spec(),
    {
        Color { r: 255 - self.r, g: 255 - self.g, b: 255 - self.b }
    }

    /// Decodes a color from text: an optional leading `#`, then exactly six
    /// hexadecimal digits, two per channel.  Anything else is rejected.
    pub fn parse(s: &str) -> (res: Result<Color, ParseError>)
        ensures
            res is Ok <==> valid_hex_color(s@),
            res is Ok ==> res->Ok_0 == parse_spec(s@),
            res is Err ==> res->Err_0 == ParseError::InvalidFormat,
    {
        let n = s.unicode_len();
        let start: usize = if n > 0 && s.get_char(0) == '#' {
            1
        } else {
            0
        };
        if n - start != 6 {
            return Err(ParseError::InvalidFormat);
        }
        let c0 = s.get_char(start);
        let c1 = s.get_char(start + 1);
        let c2 = s.get_char(start + 2);
        let c3 = s.get_char(start + 3);
        let c4 = s.get_char(start + 4);
        let c5 = s.get_char(start + 5);
        proof {
            assert(digits_of(s@) =~= seq![c0, c1, c2, c3, c4, c5]);
        }
        let h0 = match hex_digit_value(c0) {
            Some(v) => v,
            None => {
                return Err(ParseError::InvalidFormat);
            },
        };
        let h1 = match hex_digit_value(c1) {
            Some(v) => v,
            None => {
                return Err(ParseError::InvalidFormat);
            },
        };
        let h2 = match hex_digit_value(c2) {
            Some(v) => v,
            None => {
                return Err(ParseError::InvalidFormat);
            },
        };
        let h3 = match hex_digit_value(c3) {
            Some(v) => v,
            None => {
                return Err(ParseError::InvalidFormat);
            },
        };
        let h4 = match hex_digit_value(c4) {
            Some(v) => v,
            None => {
                return Err(ParseError::InvalidFormat);
            },
        };
        let h5 = match hex_digit_value(c5) {
            Some(v) => v,
            None => {
                return Err(ParseError::InvalidFormat);
            },
        };
        Ok(Color { r: h0 * 16 + h1, g: h2 * 16 + h3, b: h4 * 16 + h5 })
    }

    /// Encodes the color as `#` followed by six lowercase hexadecimal
    /// digits, zero-padded per channel.
    pub fn format(&self) -> (res: String)
        ensures
            res@ == format_spec(*self),
    {
        proof {
            reveal_strlit("#");
        }
        let mut out = String::new();
        out.append("#");
        out.append(hex_digit_str(self.r / 16));
        out.append(hex_digit_str(self.r % 16));
        out.append(hex_digit_str(self.g / 16));
        out.append(hex_digit_str(self.g % 16));
        out.append(hex_digit_str(self.b / 16));
        out.append(hex_digit_str(self.b % 16));
        proof {
            assert(out@ =~= format_spec(*self));
        }
        out
    }
}

/// Inversion is an involution: applying it twice restores the original color.
pub proof fn lemma_inverse_involution(c: Color)
    ensures
        c.inverse_spec().inverse_spec() == c,
{
}

proof fn lemma_digit_char_roundtrip(c: char)
    requires
        is_hex_digit(c),
    ensures
        0 <= hex_val(c) < 16,
        hex_digit_char(hex_val(c)) == lower_hex(c),
{
}

proof fn lemma_byte_digits(hi: char, lo: char)
    requires
        is_hex_digit(hi),
        is_hex_digit(lo),
    ensures
        byte_digits(byte_of(hi, lo)) == seq![lower_hex(hi), lower_hex(lo)],
{
    lemma_digit_char_roundtrip(hi);
    lemma_digit_char_roundtrip(lo);
    let v = byte_of(hi, lo);
    assert(v as int == hex_val(hi) * 16 + hex_val(lo));
    assert(v as int / 16 == hex_val(hi) && v as int % 16 == hex_val(lo)) by (nonlinear_arith)
        requires
            0 <= hex_val(hi) < 16,
            0 <= hex_val(lo) < 16,
            v as int == hex_val(hi) * 16 + hex_val(lo),
    ;
    assert(byte_digits(v) =~= seq![lower_hex(hi), lower_hex(lo)]);
}

/// Parsing then formatting a valid hex color string yields its canonical
/// form: `#`-prefixed and lowercase, digit for digit.
pub proof fn lemma_format_parse_round_trip(s: Seq<char>)
    requires
        valid_hex_color(s),
    ensures
        format_spec(parse_spec(s)) == normalize_spec(s),
{
    let d = digits_of(s);
    lemma_byte_digits(d[0], d[1]);
    lemma_byte_digits(d[2], d[3]);
    lemma_byte_digits(d[4], d[5]);
    assert(format_spec(parse_spec(s)) =~= normalize_spec(s));
}

} // verus!

