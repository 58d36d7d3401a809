use vstd::prelude::*;
use vstd::utf8::*;

use crate::util::chars::{
    chars_of, push_char, spec_trim, spec_trim_start_hashes, trim_chars, trim_start_hashes,
    spec_trim_start, spec_trim_end, is_whitespace,
};

verus! {

// Colors are 32-bit ARGB words: alpha in the top byte, then red, green, blue.
pub const RED_GRAY: u32 = 0xFF3F2226;
pub const DARKISH_GRAY: u32 = 0xFF242428;
pub const GRAY: u32 = 0xFF1E1F23;
pub const LIGHT_GRAY: u32 = 0xFF37373C;
pub const SUPERLIGHT_GRAY: u32 = 0xFFB4B4B4;
pub const MUTED_GRAY: u32 = 0xFF6B6B70;
pub const TRANSPARENT_GRAY: u32 = 0x56222222;
pub const GREEN: u32 = 0xFF01863B;
pub const TRANSPARENT: u32 = 0x00000000;

/// The opaque color with the given red, green and blue channels.
pub open spec fn spec_from_tuple(rgb: (u8, u8, u8)) -> u32 {
    0xFF00_0000u32 | ((rgb.0 as u32) << 16u32) | ((rgb.1 as u32) << 8u32) | (rgb.2 as u32)
}

/// The red, green and blue channels of a color.
pub open spec fn spec_to_tuple(color: u32) -> (u8, u8, u8) {
    (((color >> 16u32) & 0xFFu32) as u8, ((color >> 8u32) & 0xFFu32) as u8, (color & 0xFFu32) as u8)
}

pub fn from_tuple(rgb: (u8, u8, u8)) -> (c: u32)
    ensures
        c == spec_from_tuple(rgb),
{
    0xFF00_0000u32 | ((rgb.0 as u32) << 16u32) | ((rgb.1 as u32) << 8u32) | (rgb.2 as u32)
}

pub fn to_tuple(color: u32) -> (rgb: (u8, u8, u8))
    ensures
        rgb == spec_to_tuple(color),
{
    (((color >> 16u32) & 0xFFu32) as u8, ((color >> 8u32) & 0xFFu32) as u8, (color & 0xFFu32) as u8)
}

/// Taking the channels of the color made from `rgb` gives `rgb` back.
pub proof fn lemma_tuple_roundtrip(rgb: (u8, u8, u8))
    ensures
        spec_to_tuple(spec_from_tuple(rgb)) == rgb,
{
    let (r, g, b) = rgb;
    assert((((0xFF00_0000u32 | ((r as u32) << 16u32) | ((g as u32) << 8u32) | (b as u32)) >> 16u32)
        & 0xFFu32) as u8 == r) by (bit_vector);
    assert((((0xFF00_0000u32 | ((r as u32) << 16u32) | ((g as u32) << 8u32) | (b as u32)) >> 8u32)
        & 0xFFu32) as u8 == g) by (bit_vector);
    assert(((0xFF00_0000u32 | ((r as u32) << 16u32) | ((g as u32) << 8u32) | (b as u32))
        & 0xFFu32) as u8 == b) by (bit_vector);
}

/// `color` with its alpha channel replaced by `alpha`.
pub open spec fn spec_with_alpha(color: u32, alpha: u8) -> u32 {
    ((alpha as u32) << 24u32) | (color & 0x00FF_FFFFu32)
}

/// Replaces the alpha channel of `color`, keeping its red, green and blue.
pub fn with_alpha(color: u32, alpha: u8) -> (c: u32)
    ensures
        c == spec_with_alpha(color, alpha),
        c >> 24u32 == alpha as u32,
        spec_to_tuple(c) == spec_to_tuple(color),
{
    let c = ((alpha as u32) << 24u32) | (color & 0x00FF_FFFFu32);
    assert(c >> 24u32 == alpha as u32) by (bit_vector)
        requires
            c == ((alpha as u32) << 24u32) | (color & 0x00FF_FFFFu32),
    ;
    assert(((c >> 16u32) & 0xFFu32) == ((color >> 16u32) & 0xFFu32) && ((c >> 8u32) & 0xFFu32) == ((
    color >> 8u32) & 0xFFu32) && (c & 0xFFu32) == (color & 0xFFu32)) by (bit_vector)
        requires
            c == ((alpha as u32) << 24u32) | (color & 0x00FF_FFFFu32),
    ;
    c
}

/// The value of a hexadecimal digit, in either case.
pub open spec fn hex_digit_value(c: char) -> Option<nat> {
    if '0' <= c && c <= '9' {
        Some((c as int - 48) as nat)
    } else if 'a' <= c && c <= 'f' {
        Some((c as int - 87) as nat)
    } else if 'A' <= c && c <= 'F' {
        Some((c as int - 55) as nat)
    } else {
        None
    }
}

/// `u8::from_str_radix(s, 16)` of a two-character text `a b`: two hex digits,
/// or '+' and one hex digit.
pub open spec fn spec_parse_hex_byte(a: char, b: char) -> Option<u8> {
    if a == '+' {
        match hex_digit_value(b) {
            Some(d) => Some(d as u8),
            None => None,
        }
    } else {
        match (hex_digit_value(a), hex_digit_value(b)) {
            (Some(x), Some(y)) => Some((x * 16 + y) as u8),
            _ => None,
        }
    }
}

/// The part of the text that holds the color: trimmed, without leading '#'.
pub open spec fn hex_part(value: Seq<char>) -> Seq<char> {
    spec_trim_start_hashes(spec_trim(value))
}

/// The color that the text `value` spells as six hexadecimal digits, if any.
pub open spec fn spec_parse_hex_color(value: Seq<char>) -> Option<(u8, u8, u8)> {
    let h = hex_part(value);
    if h.len() == 6 {
        match (spec_parse_hex_byte(h[0], h[1]), spec_parse_hex_byte(h[2], h[3]),
            spec_parse_hex_byte(h[4], h[5])) {
            (Some(r), Some(g), Some(b)) => Some((r, g, b)),
            _ => None,
        }
    } else {
        None
    }
}

/// The text is cut into two-byte pieces only where characters start; a text
/// of six bytes whose pieces would split a character cannot be read.
pub open spec fn hex_cut_is_valid(value: Seq<char>) -> bool {
    let bytes = encode_utf8(hex_part(value));
    bytes.len() == 6 ==> is_char_boundary(bytes, 2) && is_char_boundary(bytes, 4)
}

fn hex_digit(c: char) -> (r: Option<u8>)
    ensures
        match hex_digit_value(c) {
            Some(d) => r == Some(d as u8),
            None => r is None,
        },
{
    if '0' <= c && c <= '9' {
        Some((c as u32 - 48) as u8)
    } else if 'a' <= c && c <= 'f' {
        Some((c as u32 - 87) as u8)
    } else if 'A' <= c && c <= 'F' {
        Some((c as u32 - 55) as u8)
    } else {
        None
    }
}

fn parse_hex_byte(a: char, b: char) -> (r: Option<u8>)
    ensures
        r == spec_parse_hex_byte(a, b),
{
    if a == '+' {
        hex_digit(b)
    } else {
        match (hex_digit(a), hex_digit(b)) {
            (Some(x), Some(y)) => Some(x * 16 + y),
            _ => None,
        }
    }
}

/// Reads a color written as `#RRGGBB` (surrounding whitespace and any number
/// of leading '#' are ignored).
pub fn parse_hex_color(value: &str) -> (r: Option<(u8, u8, u8)>)
    requires
        hex_cut_is_valid(value@),
    ensures
        r == spec_parse_hex_color(value@),
{
    let cs = chars_of(value);
    let trimmed = trim_chars(&cs);
    let h = trim_start_hashes(&trimmed);
    if h.len() != 6 {
        return None;
    }
    let r = parse_hex_byte(h[0], h[1]);
    let g = parse_hex_byte(h[2], h[3]);
    let b = parse_hex_byte(h[4], h[5]);
    match (r, g, b) {
        (Some(r), Some(g), Some(b)) => Some((r, g, b)),
        _ => None,
    }
}

/// The upper-case hexadecimal digit for `d` (`d < 16`).
pub open spec fn hex_char(d: nat) -> char {
    if d < 10 {
        (d + 48) as char
    } else {
        (d + 55) as char
    }
}

/// `#RRGGBB` in upper-case hexadecimal.
pub open spec fn spec_color_to_hex(rgb: (u8, u8, u8)) -> Seq<char> {
    seq![
        '#',
        hex_char((rgb.0 / 16) as nat),
        hex_char((rgb.0 % 16) as nat),
        hex_char((rgb.1 / 16) as nat),
        hex_char((rgb.1 % 16) as nat),
        hex_char((rgb.2 / 16) as nat),
        hex_char((rgb.2 % 16) as nat),
    ]
}

fn hex_digit_char(d: u8) -> (c: char)
    requires
        d < 16,
    ensures
        c == hex_char(d as nat),
{
    if d < 10 {
        (d + 48) as char
    } else {
        (d + 55) as char
    }
}

/// Writes a color as `#RRGGBB`, the form the color input shows.
pub fn color_to_hex(rgb: (u8, u8, u8)) -> (s: String)
    ensures
        s@ == spec_color_to_hex(rgb),
{
    let mut s = String::new();
    push_char(&mut s, '#');
    push_char(&mut s, hex_digit_char(rgb.0 / 16));
    push_char(&mut s, hex_digit_char(rgb.0 % 16));
    push_char(&mut s, hex_digit_char(rgb.1 / 16));
    push_char(&mut s, hex_digit_char(rgb.1 % 16));
    push_char(&mut s, hex_digit_char(rgb.2 / 16));
    push_char(&mut s, hex_digit_char(rgb.2 % 16));
    assert(s@ =~= spec_color_to_hex(rgb));
    s
}

proof fn lemma_hex_char_value(d: nat)
    requires
        d < 16,
    ensures
        hex_digit_value(hex_char(d)) == Some(d),
        hex_char(d) != '+',
        !is_whitespace(hex_char(d)),
        hex_char(d) != '#',
        '\0' <= hex_char(d) <= '\u{7f}',
{
}

/// Reading back the text that `color_to_hex` writes gives the same color.
pub proof fn lemma_hex_roundtrip(rgb: (u8, u8, u8))
    ensures
        hex_cut_is_valid(spec_color_to_hex(rgb)),
        spec_parse_hex_color(spec_color_to_hex(rgb)) == Some(rgb),
{
    let s = spec_color_to_hex(rgb);
    let digits = s.drop_first();
    let (r, g, b) = rgb;
    lemma_hex_char_value((r / 16) as nat);
    lemma_hex_char_value((r % 16) as nat);
    lemma_hex_char_value((g / 16) as nat);
    lemma_hex_char_value((g % 16) as nat);
    lemma_hex_char_value((b / 16) as nat);
    lemma_hex_char_value((b % 16) as nat);
    assert(!is_whitespace(s[0]));
    assert(spec_trim_start(s) == s);
    assert(!is_whitespace(s.last()));
    assert(spec_trim_end(s) == s);
    assert(spec_trim(s) == s);
    assert(s.drop_first() == digits);
    assert(spec_trim_start_hashes(digits) == digits);
    assert(hex_part(s) == digits);
    assert(digits.len() == 6);
    assert(spec_parse_hex_byte(digits[0], digits[1]) == Some(r));
    assert(spec_parse_hex_byte(digits[2], digits[3]) == Some(g));
    assert(spec_parse_hex_byte(digits[4], digits[5]) == Some(b));
    assert(is_ascii_chars(digits));
    lemma_ascii_is_char_boundary(digits);
}

proof fn lemma_ascii_is_char_boundary(s: Seq<char>)
    requires
        s.len() == 6,
        is_ascii_chars(s),
    ensures
        encode_utf8(s).len() == 6,
        is_char_boundary(encode_utf8(s), 2),
        is_char_boundary(encode_utf8(s), 4),
{
    let bytes = encode_utf8(s);
    is_ascii_chars_encode_utf8(s);
    encode_utf8_valid_utf8(s);
    assert(s[2] as u8 == bytes[2]);
    assert(s[4] as u8 == bytes[4]);
    assert('\0' <= s[2] <= '\u{7f}');
    assert('\0' <= s[4] <= '\u{7f}');
    let b2 = bytes[2];
    let b4 = bytes[4];
    is_char_boundary_iff_not_is_continuation_byte(bytes, 2);
    is_char_boundary_iff_not_is_continuation_byte(bytes, 4);
}

} // verus!
