use vstd::prelude::*;
use crate::text::{trim, trimmed_chars};

verus! {

/// A colour as four 8-bit channels; a channel of `v` stands for `v / 255`.
#[derive(Clone, Copy, Debug, PartialEq, Eq, Structural)]
pub struct Rgba {
    pub r: u8,
    pub g: u8,
    pub b: u8,
    pub a: u8,
}

/// Number of bytes that the UTF-8 encoding of a character takes.
pub open spec fn utf8_width(c: char) -> nat {
    let u = c as u32;
    if u <= 0x7F {
        1
    } else if u <= 0x7FF {
        2
    } else if u <= 0xFFFF {
        3
    } else {
        4
    }
}

/// Number of bytes that the UTF-8 encoding of a character sequence takes.
pub open spec fn utf8_len(s: Seq<char>) -> nat
    decreases s.len(),
{
    if s.len() == 0 {
        0
    } else {
        utf8_len(s.drop_last()) + utf8_width(s.last())
    }
}

proof fn lemma_utf8_len_concat(a: Seq<char>, b: Seq<char>)
    ensures
        utf8_len(a + b) == utf8_len(a) + utf8_len(b),
    decreases b.len(),
{
    if b.len() == 0 {
        assert(a + b =~= a);
    } else {
        lemma_utf8_len_concat(a, b.drop_last());
        assert((a + b).drop_last() =~= a + b.drop_last());
    }
}

/// `utf8_len` is the length of vstd's UTF-8 encoding of the sequence.
pub proof fn lemma_utf8_len_is_encoded_len(s: Seq<char>)
    ensures
        utf8_len(s) == vstd::utf8::encode_utf8(s).len(),
    decreases s.len(),
{
    if s.len() > 0 {
        let c = s[0];
        vstd::utf8::char_is_scalar(c);
        assert(vstd::utf8::encode_scalar(c as u32).len() == utf8_width(c));
        lemma_utf8_len_is_encoded_len(s.drop_first());
        lemma_utf8_len_concat(seq![c], s.drop_first());
        assert(seq![c] + s.drop_first() =~= s);
        assert(seq![c].drop_last() =~= Seq::<char>::empty());
        assert(seq![c].last() == c);
        assert(utf8_len(Seq::<char>::empty()) == 0);
        assert(utf8_len(seq![c]) == utf8_width(c));
        assert(vstd::utf8::encode_utf8(s) == vstd::utf8::encode_scalar(c as u32)
            + vstd::utf8::encode_utf8(s.drop_first()));
    }
}

/// The value of a hexadecimal digit, in either case.
pub open spec fn hex_digit_value(c: char) -> Option<u8> {
    let u = c as u32;
    if 0x30 <= u <= 0x39 {
        Some((u - 0x30) as u8)
    } else if 0x61 <= u <= 0x66 {
        Some((u - 0x61 + 10) as u8)
    } else if 0x41 <= u <= 0x46 {
        Some((u - 0x41 + 10) as u8)
    } else {
        None
    }
}

/// Whether a character is a hexadecimal digit.
pub open spec fn is_hex_digit(c: char) -> bool {
    hex_digit_value(c) is Some
}

/// The byte that two hexadecimal digits spell, high digit first.
pub open spec fn hex_byte(hi: char, lo: char) -> u8 {
    (16 * hex_digit_value(hi)->0 + hex_digit_value(lo)->0) as u8
}

/// The bytes that a run of hexadecimal digits spells, two digits per byte.
pub open spec fn hex_bytes(t: Seq<char>) -> Seq<u8> {
    Seq::new(t.len() / 2, |k: int| hex_byte(t[2 * k], t[2 * k + 1]))
}

/// Whether a text is a colour code: `#` and then six or eight hexadecimal digits.
pub open spec fn is_hex_code(t: Seq<char>) -> bool {
    &&& t.len() == 7 || t.len() == 9
    &&& t[0] == '#'
    &&& forall|i: int| 1 <= i < t.len() ==> is_hex_digit(#[trigger] t[i])
}

/// The colour that a `#rrggbb` or `#rrggbbaa` code denotes, surrounding white
/// space allowed; alpha is opaque when the code has six digits. Any other
/// text denotes no colour.
pub open spec fn hex_color(s: Seq<char>) -> Option<Rgba> {
    let t = trim(s);
    if is_hex_code(t) {
        let b = hex_bytes(t.drop_first());
        Some(
            Rgba {
                r: b[0],
                g: b[1],
                b: b[2],
                a: if t.len() == 7 {
                    255u8
                } else {
                    b[3]
                },
            },
        )
    } else {
        None
    }
}

fn hex_digit(c: char) -> (r: Option<u8>)
    ensures
        r == hex_digit_value(c),
{
    let u = c as u32;
    if 0x30 <= u && u <= 0x39 {
        Some((u - 0x30) as u8)
    } else if 0x61 <= u && u <= 0x66 {
        Some((u - 0x61 + 10) as u8)
    } else if 0x41 <= u && u <= 0x46 {
        Some((u - 0x41 + 10) as u8)
    } else {
        None
    }
}

fn read_byte(hi: char, lo: char) -> (b: u8)
    requires
        is_hex_digit(hi),
        is_hex_digit(lo),
    ensures
        b == hex_byte(hi, lo),
{
    let h = hex_digit(hi).unwrap();
    let l = hex_digit(lo).unwrap();
    16 * h + l
}

/// Reads a `#rrggbb` or `#rrggbbaa` colour code, surrounding white space
/// allowed: two hexadecimal digits per channel, in either case.
pub fn parse_hex_color(s: &str) -> (r: Option<Rgba>)
    ensures
        r == hex_color(s@),
{
    let t = trimmed_chars(s);
    if !(t.len() == 7 || t.len() == 9) || t[0] != '#' {
        return None;
    }
    let mut i: usize = 1;
    while i < t.len()
        invariant
            t@ == trim(s@),
            t.len() == 7 || t.len() == 9,
            1 <= i <= t.len(),
            forall|j: int| 1 <= j < i ==> is_hex_digit(#[trigger] t@[j]),
        decreases t.len() - i,
    {
        if hex_digit(t[i]).is_none() {
            return None;
        }
        i = i + 1;
    }
    let ghost d = t@.drop_first();
    assert(is_hex_code(t@));
    assert forall|k: int| 0 <= k < d.len() implies #[trigger] d[k] == t@[k + 1] by {}
    let r = read_byte(t[1], t[2]);
    let g = read_byte(t[3], t[4]);
    let b = read_byte(t[5], t[6]);
    let a = if t.len() == 7 {
        255u8
    } else {
        read_byte(t[7], t[8])
    };
    assert(hex_bytes(d)[0] == r && hex_bytes(d)[1] == g && hex_bytes(d)[2] == b);
    assert(t.len() == 9 ==> hex_bytes(d)[3] == a);
    Some(Rgba { r, g, b, a })
}

/// Every well-formed code denotes the colour its digits spell: `#` and six
/// hexadecimal digits give an opaque colour, eight digits one with alpha.
pub proof fn lemma_hex_code_parses(d: Seq<char>)
    requires
        d.len() == 6 || d.len() == 8,
        forall|i: int| 0 <= i < d.len() ==> is_hex_digit(#[trigger] d[i]),
    ensures
        hex_bytes(d).len() == d.len() / 2,
        hex_color(seq!['#'] + d) == Some(
            Rgba {
                r: hex_byte(d[0], d[1]),
                g: hex_byte(d[2], d[3]),
                b: hex_byte(d[4], d[5]),
                a: if d.len() == 6 {
                    255u8
                } else {
                    hex_byte(d[6], d[7])
                },
            },
        ),
{
    let s = seq!['#'] + d;
    assert(s[0] == '#');
    assert(s.last() == d.last());
    assert(is_hex_digit(d[d.len() - 1]));
    assert(!crate::text::is_space('#'));
    assert(crate::text::trim_start(s) == s);
    assert(crate::text::trim_end(s) == s);
    assert(s.drop_first() =~= d);
    assert forall|i: int| 1 <= i < s.len() implies is_hex_digit(#[trigger] s[i]) by {
        assert(s[i] == d[i - 1]);
    }
}

/// The lowercase hexadecimal digit of a value below 16.
pub open spec fn lower_hex_digit(d: nat) -> char {
    "0123456789abcdef"@[d as int]
}

/// The uppercase hexadecimal digit of a value below 16.
pub open spec fn upper_hex_digit(d: nat) -> char {
    "0123456789ABCDEF"@[d as int]
}

/// The two lowercase hexadecimal digits of a byte, high digit first.
pub open spec fn byte_hex(b: u8) -> Seq<char> {
    seq![lower_hex_digit((b / 16) as nat), lower_hex_digit((b % 16) as nat)]
}

/// Exactly `0`-`9`, `a`-`f` and `A`-`F` are hexadecimal digits, each worth
/// its base-16 value (`a` and `A` are 10, …, `f` and `F` are 15).
pub proof fn lemma_hex_digits(c: char, d: nat)
    ensures
        d < 16 ==> hex_digit_value(lower_hex_digit(d)) == Some(d as u8),
        d < 16 ==> hex_digit_value(upper_hex_digit(d)) == Some(d as u8),
        hex_digit_value(c) matches Some(v) ==> v < 16 && (c == lower_hex_digit(v as nat) || c
            == upper_hex_digit(v as nat)),
{
    reveal_strlit("0123456789abcdef");
    reveal_strlit("0123456789ABCDEF");
    if let Some(v) = hex_digit_value(c) {
        lemma_hex_digit_cases(v as nat);
    }
    if d < 16 {
        lemma_hex_digit_cases(d);
    }
}

proof fn lemma_hex_digit_cases(d: nat)
    requires
        d < 16,
    ensures
        lower_hex_digit(d) as u32 == if d < 10 {
            0x30 + d as int
        } else {
            0x61 + d - 10
        },
        upper_hex_digit(d) as u32 == if d < 10 {
            0x30 + d as int
        } else {
            0x41 + d - 10
        },
{
    reveal_strlit("0123456789abcdef");
    reveal_strlit("0123456789ABCDEF");
    if d == 0 {
        } else if d == 1 {
        } else if d == 2 {
        } else if d == 3 {
        } else if d == 4 {
        } else if d == 5 {
        } else if d == 6 {
        } else if d == 7 {
        } else if d == 8 {
        } else if d == 9 {
        } else if d == 10 {
        } else if d == 11 {
        } else if d == 12 {
        } else if d == 13 {
        } else if d == 14 {
        } else if d == 15 {
    } else {
    }
}

/// Writing the channels of an opaque colour as `#rrggbb` and reading the
/// code back gives the colour; with the alpha channel as `#rrggbbaa` too.
pub proof fn lemma_hex_code_round_trip(r: u8, g: u8, b: u8, a: u8)
    ensures
        hex_color(seq!['#'] + byte_hex(r) + byte_hex(g) + byte_hex(b)) == Some(
            Rgba { r, g, b, a: 255 },
        ),
        hex_color(seq!['#'] + byte_hex(r) + byte_hex(g) + byte_hex(b) + byte_hex(a)) == Some(
            Rgba { r, g, b, a },
        ),
{
    lemma_byte_hex(r);
    lemma_byte_hex(g);
    lemma_byte_hex(b);
    lemma_byte_hex(a);
    let d6 = byte_hex(r) + byte_hex(g) + byte_hex(b);
    let d8 = d6 + byte_hex(a);
    assert(d6 =~= seq![byte_hex(r)[0], byte_hex(r)[1], byte_hex(g)[0], byte_hex(g)[1], byte_hex(b)[0], byte_hex(b)[1]]);
    assert(d8 =~= d6.push(byte_hex(a)[0]).push(byte_hex(a)[1]));
    assert(seq!['#'] + d6 + byte_hex(a) =~= seq!['#'] + d8);
    assert forall|i: int| 0 <= i < d8.len() implies is_hex_digit(#[trigger] d8[i]) by {}
    assert forall|i: int| 0 <= i < d6.len() implies is_hex_digit(#[trigger] d6[i]) by {}
    lemma_hex_code_parses(d6);
    lemma_hex_code_parses(d8);
}

proof fn lemma_byte_hex(x: u8)
    ensures
        is_hex_digit(byte_hex(x)[0]),
        is_hex_digit(byte_hex(x)[1]),
        hex_byte(byte_hex(x)[0], byte_hex(x)[1]) == x,
{
    let hi = (x / 16) as nat;
    let lo = (x % 16) as nat;
    lemma_hex_digits('0', hi);
    lemma_hex_digits('0', lo);
    assert(16 * hi + lo == x);
}

} // verus!
