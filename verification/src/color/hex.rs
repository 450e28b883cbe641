//! Hexadecimal colour notation: "#RRGGBB".
use vstd::prelude::*;

use crate::text::{chars_of, lower_char, lower_seq, push_char};

verus! {

/// Whether a character is a hexadecimal digit (either case).
pub open spec fn is_hex(c: char) -> bool {
    ('0' <= c && c <= '9') || ('a' <= c && c <= 'f') || ('A' <= c && c <= 'F')
}

/// The value of a hexadecimal digit.
pub open spec fn hex_value(c: char) -> int {
    if '0' <= c && c <= '9' {
        c as int - 48
    } else if 'a' <= c && c <= 'f' {
        c as int - 87
    } else {
        c as int - 55
    }
}

/// What `u8::from_str_radix(field, 16)` gives for a two-character field:
/// two hexadecimal digits, or `'+'` and one digit.
pub open spec fn hex_field(a: char, b: char) -> Option<u8> {
    if a == '+' {
        if is_hex(b) {
            Some(hex_value(b) as u8)
        } else {
            None
        }
    } else if is_hex(a) && is_hex(b) {
        Some((hex_value(a) * 16 + hex_value(b)) as u8)
    } else {
        None
    }
}

/// `s` without its leading run of `c`.
pub open spec fn trim_start_char_seq(s: Seq<char>, c: char) -> Seq<char>
    decreases s.len(),
{
    if s.len() > 0 && s[0] == c {
        trim_start_char_seq(s.drop_first(), c)
    } else {
        s
    }
}

/// The channels a colour written as hex names: after leading `'#'`s,
/// three two-character fields. (Six bytes that are not six characters
/// hold a character that no field accepts.)
pub open spec fn rgb_from_hex_spec(hex: Seq<char>) -> Option<(u8, u8, u8)> {
    let t = trim_start_char_seq(hex, '#');
    if t.len() != 6 {
        None
    } else {
        match (hex_field(t[0], t[1]), hex_field(t[2], t[3]), hex_field(t[4], t[5])) {
            (Some(r), Some(g), Some(b)) => Some((r, g, b)),
            _ => None,
        }
    }
}

proof fn lemma_trim_start_char(s: Seq<char>, c: char, k: int)
    requires
        0 <= k <= s.len(),
        forall|j: int| 0 <= j < k ==> s[j] == c,
        k == s.len() || s[k] != c,
    ensures
        trim_start_char_seq(s, c) == s.subrange(k, s.len() as int),
    decreases k,
{
    if k > 0 {
        assert(forall|j: int| 0 <= j < k - 1 ==> s.drop_first()[j] == s[j + 1]);
        lemma_trim_start_char(s.drop_first(), c, k - 1);
        assert(s.drop_first().subrange(k - 1, s.len() - 1) =~= s.subrange(k, s.len() as int));
    } else {
        assert(s.subrange(0, s.len() as int) =~= s);
    }
}

fn hex_digit(c: char) -> (r: Option<u8>)
    ensures
        match r {
            Some(v) => is_hex(c) && v == hex_value(c),
            None => !is_hex(c),
        },
{
    if '0' <= c && c <= '9' {
        Some((c as u32 - 48) as u8)
    } else if 'a' <= c && c <= 'f' {
        Some((c as u32 - 87) as u8)
    } else if 'A' <= c && c <= 'F' {
        Some((c as u32 - 55) as u8)
    } else {
        None
    }
}

fn parse_hex_field(a: char, b: char) -> (r: Option<u8>)
    ensures
        r == hex_field(a, b),
{
    if a == '+' {
        match hex_digit(b) {
            Some(v) => Some(v),
            None => None,
        }
    } else {
        match (hex_digit(a), hex_digit(b)) {
            (Some(x), Some(y)) => Some(x * 16 + y),
            _ => None,
        }
    }
}

/// The channels of a colour written "#RRGGBB" (the `#` may be left out or
/// repeated).
pub fn rgb_from_hex(hex: &str) -> (r: Option<(u8, u8, u8)>)
    ensures
        r == rgb_from_hex_spec(hex@),
{
    let v = chars_of(hex);
    let mut k: usize = 0;
    while k < v.len() && v[k] == '#'
        invariant
            k <= v@.len(),
            forall|j: int| 0 <= j < k ==> v@[j] == '#',
        decreases v.len() - k,
    {
        k = k + 1;
    }
    proof {
        lemma_trim_start_char(v@, '#', k as int);
    }
    if v.len() - k != 6 {
        return None;
    }
    let r = match parse_hex_field(v[k], v[k + 1]) {
        Some(x) => x,
        None => return None,
    };
    let g = match parse_hex_field(v[k + 2], v[k + 3]) {
        Some(x) => x,
        None => return None,
    };
    let b = match parse_hex_field(v[k + 4], v[k + 5]) {
        Some(x) => x,
        None => return None,
    };
    Some((r, g, b))
}

/// The upper-case hexadecimal digit of a value below sixteen.
pub open spec fn hex_char(d: int) -> char {
    if d < 10 {
        (48 + d) as char
    } else {
        (55 + d) as char
    }
}

/// "#RRGGBB" in upper-case digits.
pub open spec fn hex_text(r: u8, g: u8, b: u8) -> Seq<char> {
    seq![
        '#',
        hex_char(r as int / 16),
        hex_char(r as int % 16),
        hex_char(g as int / 16),
        hex_char(g as int % 16),
        hex_char(b as int / 16),
        hex_char(b as int % 16),
    ]
}

fn hex_digit_char(d: u8) -> (c: char)
    requires
        d < 16,
    ensures
        c == hex_char(d as int),
{
    if d < 10 {
        (48u8 + d) as char
    } else {
        (55u8 + d) as char
    }
}

/// A colour written "#RRGGBB" with upper-case digits.
pub fn hex_from_rgb(r: u8, g: u8, b: u8) -> (s: String)
    ensures
        s@ == hex_text(r, g, b),
{
    let mut s = String::new();
    push_char(&mut s, '#');
    push_char(&mut s, hex_digit_char(r / 16));
    push_char(&mut s, hex_digit_char(r % 16));
    push_char(&mut s, hex_digit_char(g / 16));
    push_char(&mut s, hex_digit_char(g % 16));
    push_char(&mut s, hex_digit_char(b / 16));
    push_char(&mut s, hex_digit_char(b % 16));
    proof {
        assert(s@ =~= hex_text(r, g, b));
    }
    s
}

/// Writing a colour as hex and reading it back gives the channels back.
pub proof fn lemma_hex_round_trip(r: u8, g: u8, b: u8)
    ensures
        rgb_from_hex_spec(hex_text(r, g, b)) == Some((r, g, b)),
{
    let t = hex_text(r, g, b);
    let body = t.drop_first();
    assert(trim_start_char_seq(body, '#') == body) by {
        assert(body[0] == hex_char(r as int / 16));
    }
    assert(trim_start_char_seq(t, '#') == body);
    assert forall|x: u8| #[trigger] hex_field(hex_char(x as int / 16), hex_char(x as int % 16)) == Some(x) by {
        let hi = x as int / 16;
        let lo = x as int % 16;
        assert(is_hex(hex_char(hi)) && hex_value(hex_char(hi)) == hi);
        assert(is_hex(hex_char(lo)) && hex_value(hex_char(lo)) == lo);
        assert(hi * 16 + lo == x);
    }
    assert(body[0] == hex_char(r as int / 16) && body[1] == hex_char(r as int % 16));
    assert(body[2] == hex_char(g as int / 16) && body[3] == hex_char(g as int % 16));
    assert(body[4] == hex_char(b as int / 16) && body[5] == hex_char(b as int % 16));
}

/// Reading hex does not depend on the case of the digits: a colour
/// written as hex in lower-case digits reads back as the same channels
/// as in upper-case digits.
pub proof fn lemma_hex_round_trip_lower(r: u8, g: u8, b: u8)
    ensures
        rgb_from_hex_spec(lower_seq(hex_text(r, g, b))) == Some((r, g, b)),
        rgb_from_hex_spec(lower_seq(hex_text(r, g, b))) == rgb_from_hex_spec(hex_text(r, g, b)),
{
    lemma_hex_round_trip(r, g, b);
    let t = lower_seq(hex_text(r, g, b));
    assert(t.len() == 7);
    assert(t[0] == '#');
    let body = t.drop_first();
    assert(trim_start_char_seq(body, '#') == body) by {
        assert(body[0] == lower_char(hex_char(r as int / 16)));
    }
    assert(trim_start_char_seq(t, '#') == body);
    assert forall|x: u8| #[trigger] hex_field(lower_char(hex_char(x as int / 16)), lower_char(hex_char(x as int % 16))) == Some(x) by {
        let hi = x as int / 16;
        let lo = x as int % 16;
        assert(is_hex(lower_char(hex_char(hi))) && hex_value(lower_char(hex_char(hi))) == hi);
        assert(is_hex(lower_char(hex_char(lo))) && hex_value(lower_char(hex_char(lo))) == lo);
        assert(hi * 16 + lo == x);
    }
    assert(body[0] == lower_char(hex_char(r as int / 16)) && body[1] == lower_char(hex_char(r as int % 16)));
    assert(body[2] == lower_char(hex_char(g as int / 16)) && body[3] == lower_char(hex_char(g as int % 16)));
    assert(body[4] == lower_char(hex_char(b as int / 16)) && body[5] == lower_char(hex_char(b as int % 16)));
}

} // verus!
