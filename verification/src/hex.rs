//! Conversion between `#RRGGBB` colour strings and RGB triples.
use vstd::prelude::*;

verus! {

/// The value of a hexadecimal digit; any other character counts as 15.
pub open spec fn hex_value(c: char) -> u8 {
    if '0' <= c && c <= '9' {
        (c as u32 - '0' as u32) as u8
    } else if 'A' <= c && c <= 'F' {
        (c as u32 - 'A' as u32 + 10) as u8
    } else if 'a' <= c && c <= 'f' {
        (c as u32 - 'a' as u32 + 10) as u8
    } else {
        15
    }
}

/// The upper-case hexadecimal digit of a value below 16; `F` for larger values.
pub open spec fn hex_digit(u: u8) -> char {
    if u < 10 {
        (u + '0' as u32) as char
    } else if u < 16 {
        (u - 10 + 'A' as u32) as char
    } else {
        'F'
    }
}

pub fn hex_char_to_u8(c: char) -> (r: u8)
    ensures
        r == hex_value(c),
{
    if '0' <= c && c <= '9' {
        ((c as u32) - ('0' as u32)) as u8
    } else if 'A' <= c && c <= 'F' {
        ((c as u32) - ('A' as u32) + 10) as u8
    } else if 'a' <= c && c <= 'f' {
        ((c as u32) - ('a' as u32) + 10) as u8
    } else {
        15
    }
}


pub fn u8_to_hex_char(u: u8) -> (r: char)
    ensures
        r == hex_digit(u),
{
    if u < 10 {
        (u + 48) as char
    } else if u < 16 {
        (u + 55) as char
    } else {
        'F'
    }
}

/// The string with every leading `#` removed.
pub open spec fn strip_hashes(s: Seq<char>) -> Seq<char>
    decreases s.len(),
{
    if s.len() > 0 && s[0] == '#' {
        strip_hashes(s.drop_first())
    } else {
        s
    }
}

/// The byte that two hexadecimal digits spell, high digit first.
pub open spec fn hex_pair(hi: char, lo: char) -> u8 {
    (hex_value(hi) * 16 + hex_value(lo)) as u8
}

/// The colour that a `#RRGGBB` string names: leading `#`s are skipped and
/// the next six characters are read as three pairs of hexadecimal digits.
pub open spec fn rgb_of(s: Seq<char>) -> (u8, u8, u8) {
    let t = strip_hashes(s);
    (hex_pair(t[0], t[1]), hex_pair(t[2], t[3]), hex_pair(t[4], t[5]))
}

/// The `#RRGGBB` string of a colour, with upper-case digits.
pub open spec fn hex_of(rgb: (u8, u8, u8)) -> Seq<char> {
    seq![
        '#',
        hex_digit(rgb.0 / 16),
        hex_digit(rgb.0 % 16),
        hex_digit(rgb.1 / 16),
        hex_digit(rgb.1 % 16),
        hex_digit(rgb.2 / 16),
        hex_digit(rgb.2 % 16),
    ]
}

proof fn lemma_strip_step(s: Seq<char>, i: int)
    requires
        0 <= i < s.len(),
        s[i] == '#',
    ensures
        strip_hashes(s.skip(i)) == strip_hashes(s.skip(i + 1)),
{
    assert(s.skip(i).drop_first() =~= s.skip(i + 1));
}

/// Reads a `#RRGGBB` colour; leading `#`s are optional.
pub fn hex_to_rgb(hex: &String) -> (rgb: (u8, u8, u8))
    requires
        strip_hashes(hex@).len() >= 6,
    ensures
        rgb == rgb_of(hex@),
{
    let s = hex.as_str();
    let n = s.unicode_len();
    let mut i: usize = 0;
    assert(hex@.skip(0) =~= hex@);
    while i < n && s.get_char(i) == '#'
        invariant
            s@ == hex@,
            n == hex@.len(),
            i <= n,
            strip_hashes(hex@) == strip_hashes(hex@.skip(i as int)),
        decreases n - i,
    {
        proof {
            lemma_strip_step(hex@, i as int);
        }
        i = i + 1;
    }
    let ghost t = hex@.skip(i as int);
    assert(strip_hashes(t) == t);
    assert(i + 6 <= n);
    let r = hex_char_to_u8(s.get_char(i)) * 16 + hex_char_to_u8(s.get_char(i + 1));
    let g = hex_char_to_u8(s.get_char(i + 2)) * 16 + hex_char_to_u8(s.get_char(i + 3));
    let b = hex_char_to_u8(s.get_char(i + 4)) * 16 + hex_char_to_u8(s.get_char(i + 5));
    (r, g, b)
}

/// Writes a colour as `#RRGGBB` with upper-case digits.
pub fn rgb_to_hex(rgb: &(u8, u8, u8)) -> (hex: String)
    ensures
        hex@ == hex_of(*rgb),
{
    let mut s = String::new();
    s.push('#');
    s.push(u8_to_hex_char((rgb.0 - (rgb.0 % 16)) / 16));
    s.push(u8_to_hex_char(rgb.0 % 16));
    s.push(u8_to_hex_char((rgb.1 - (rgb.1 % 16)) / 16));
    s.push(u8_to_hex_char(rgb.1 % 16));
    s.push(u8_to_hex_char((rgb.2 - (rgb.2 % 16)) / 16));
    s.push(u8_to_hex_char(rgb.2 % 16));
    proof {
        assert(s@ =~= hex_of(*rgb));
    }
    s
}

/// Reading back a digit that `u8_to_hex_char` wrote gives the value back.
pub proof fn lemma_hex_digit_roundtrip(u: u8)
    requires
        u < 16,
    ensures
        hex_value(hex_digit(u)) == u,
{
}

/// Reading back a colour that `rgb_to_hex` wrote gives the same colour.
pub proof fn lemma_rgb_hex_roundtrip(rgb: (u8, u8, u8))
    ensures
        strip_hashes(hex_of(rgb)).len() >= 6,
        rgb_of(hex_of(rgb)) == rgb,
{
    let h = hex_of(rgb);
    assert(h.drop_first() =~= seq![
        hex_digit(rgb.0 / 16),
        hex_digit(rgb.0 % 16),
        hex_digit(rgb.1 / 16),
        hex_digit(rgb.1 % 16),
        hex_digit(rgb.2 / 16),
        hex_digit(rgb.2 % 16),
    ]);
    let t = h.drop_first();
    assert(t[0] != '#');
    assert(strip_hashes(t) == t);
    assert(strip_hashes(h) == t);
    lemma_hex_digit_roundtrip(rgb.0 / 16);
    lemma_hex_digit_roundtrip(rgb.0 % 16);
    lemma_hex_digit_roundtrip(rgb.1 / 16);
    lemma_hex_digit_roundtrip(rgb.1 % 16);
    lemma_hex_digit_roundtrip(rgb.2 / 16);
    lemma_hex_digit_roundtrip(rgb.2 % 16);
}

} // verus!
