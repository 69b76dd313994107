//! A raw theme color, as `colors.toml` declares it, with no semantic meaning attached.

use vstd::prelude::*;
use vstd::string::StrSliceExecFns;

use super::error::{ThemeError, ThemeErrorView};

verus! {

/// An 8-bit-per-channel color read straight from the theme.
#[derive(Debug, Clone, Copy, PartialEq, Eq, Structural)]
pub struct Rgb {
    pub red: u8,
    pub green: u8,
    pub blue: u8,
}

/// An ASCII hexadecimal digit, in either case.
pub open spec fn is_hex_digit(c: char) -> bool {
    ('0' <= c && c <= '9') || ('a' <= c && c <= 'f') || ('A' <= c && c <= 'F')
}

/// The value of a hexadecimal digit.
pub open spec fn hex_value(c: char) -> int {
    if '0' <= c && c <= '9' {
        c as int - '0' as int
    } else if 'a' <= c && c <= 'f' {
        c as int - 'a' as int + 10
    } else {
        c as int - 'A' as int + 10
    }
}

/// `#rrggbb`, in either case: a `#` and six hexadecimal digits, nothing else.
pub open spec fn is_color_text(s: Seq<char>) -> bool {
    &&& s.len() == 7
    &&& s[0] == '#'
    &&& forall|i: int| 1 <= i < 7 ==> is_hex_digit(#[trigger] s[i])
}

/// The byte that the two digits starting at `start` spell.
pub open spec fn channel_at(s: Seq<char>, start: int) -> int {
    hex_value(s[start]) * 16 + hex_value(s[start + 1])
}

/// The color `#rrggbb` names.
pub open spec fn color_of_text(s: Seq<char>) -> Rgb {
    Rgb {
        red: channel_at(s, 1) as u8,
        green: channel_at(s, 3) as u8,
        blue: channel_at(s, 5) as u8,
    }
}

/// The lowercase digit for a value below sixteen.
pub open spec fn digit_char(n: int) -> char {
    if n < 10 {
        ('0' as int + n) as char
    } else {
        ('a' as int + n - 10) as char
    }
}

pub open spec fn byte_text(b: u8) -> Seq<char> {
    seq![digit_char(b as int / 16), digit_char(b as int % 16)]
}

/// How a color renders: `#rrggbb` in lowercase.
pub open spec fn hex_text(color: Rgb) -> Seq<char> {
    seq!['#'] + byte_text(color.red) + byte_text(color.green) + byte_text(color.blue)
}

fn hex_digit_value(c: char) -> (r: Option<u8>)
    ensures
        match r {
            Some(v) => is_hex_digit(c) && v as int == hex_value(c) && v < 16,
            None => !is_hex_digit(c),
        },
{
    if '0' <= c && c <= '9' {
        Some((c as u32 - '0' as u32) as u8)
    } else if 'a' <= c && c <= 'f' {
        Some((c as u32 - 'a' as u32 + 10) as u8)
    } else if 'A' <= c && c <= 'F' {
        Some((c as u32 - 'A' as u32 + 10) as u8)
    } else {
        None
    }
}

impl Rgb {
    /// Accepts `#rrggbb` in either case, the only form Omarchy themes use for the keys that
    /// belong to the color contract.
    pub fn parse(key: &'static str, value: &str) -> (r: Result<Rgb, ThemeError>)
        ensures
            is_color_text(value@) ==> r == Ok::<Rgb, ThemeError>(color_of_text(value@)),
            !is_color_text(value@) ==> (r matches Err(error) && error@
                == ThemeErrorView::InvalidColor(key@, value@)),
    {
        let length = value.unicode_len();
        if length != 7 || value.get_char(0) != '#' {
            return Err(ThemeError::InvalidColor(key, value.to_owned()));
        }
        let mut digits: Vec<u8> = Vec::new();
        let mut i: usize = 1;
        while i < 7
            invariant
                1 <= i <= 7,
                value@.len() == 7,
                digits@.len() == i - 1,
                forall|j: int| 1 <= j < i ==> is_hex_digit(#[trigger] value@[j]),
                forall|j: int| 1 <= j < i ==> digits@[j - 1] as int == hex_value(#[trigger] value@[j]),
                forall|j: int| 0 <= j < digits@.len() ==> #[trigger] digits@[j] < 16,
            decreases 7 - i,
        {
            match hex_digit_value(value.get_char(i)) {
                Some(v) => digits.push(v),
                None => return Err(ThemeError::InvalidColor(key, value.to_owned())),
            }
            i = i + 1;
        }
        assert(digits@[0] as int == hex_value(value@[1]));
        assert(digits@[1] as int == hex_value(value@[2]));
        assert(digits@[2] as int == hex_value(value@[3]));
        assert(digits@[3] as int == hex_value(value@[4]));
        assert(digits@[4] as int == hex_value(value@[5]));
        assert(digits@[5] as int == hex_value(value@[6]));
        let red = digits[0] * 16 + digits[1];
        let green = digits[2] * 16 + digits[3];
        let blue = digits[4] * 16 + digits[5];
        Ok(Rgb { red, green, blue })
    }

    /// The color as `colors.toml` writes it: `#rrggbb`, in lowercase.
    pub fn to_hex(&self) -> (r: String)
        ensures
            r@ == hex_text(*self),
    {
        let mut text = String::from_str("#");
        push_byte(&mut text, self.red);
        push_byte(&mut text, self.green);
        push_byte(&mut text, self.blue);
        proof {
            reveal_strlit("#");
        }
        text
    }
}

fn push_byte(text: &mut String, b: u8)
    ensures
        final(text)@ == old(text)@ + byte_text(b),
{
    let digits = "0123456789abcdef";
    proof {
        reveal_strlit("0123456789abcdef");
    }
    let high = (b / 16) as usize;
    let low = (b % 16) as usize;
    text.append(digits.substring_char(high, high + 1));
    text.append(digits.substring_char(low, low + 1));
    assert(digits@.subrange(high as int, high + 1) =~= seq![digit_char(b as int / 16)]);
    assert(digits@.subrange(low as int, low + 1) =~= seq![digit_char(b as int % 16)]);
}

/// A color renders to a text that parses back to the very same color.
pub proof fn lemma_render_then_parse(color: Rgb)
    ensures
        is_color_text(hex_text(color)),
        color_of_text(hex_text(color)) == color,
{
    assert forall|b: u8| is_hex_digit(#[trigger] digit_char(b as int / 16)) && is_hex_digit(
        digit_char(b as int % 16),
    ) && hex_value(digit_char(b as int / 16)) * 16 + hex_value(digit_char(b as int % 16))
        == b as int by {
        assert(b as int == (b as int / 16) * 16 + b as int % 16);
    }
    let s = hex_text(color);
    assert(s[1] == digit_char(color.red as int / 16));
    assert(s[2] == digit_char(color.red as int % 16));
    assert(s[3] == digit_char(color.green as int / 16));
    assert(s[4] == digit_char(color.green as int % 16));
    assert(s[5] == digit_char(color.blue as int / 16));
    assert(s[6] == digit_char(color.blue as int % 16));
    assert(channel_at(s, 1) == color.red as int);
    assert(channel_at(s, 3) == color.green as int);
    assert(channel_at(s, 5) == color.blue as int);
}

} // verus!
