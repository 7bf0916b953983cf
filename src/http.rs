//! Decoding of the values the control surface receives: form-encoded text and
//! hexadecimal colors.
use vstd::prelude::*;
use vstd::string::{StrSliceExecFns, StringSliceAdditionalSpecFns};
use crate::text::string_from_chars;

verus! {

/// Value of a hexadecimal digit character, or -1.
pub open spec fn hex_value(c: int) -> int {
    if 48 <= c <= 57 {
        c - 48
    } else if 97 <= c <= 102 {
        c - 87
    } else if 65 <= c <= 70 {
        c - 55
    } else {
        -1
    }
}

/// A two-character hexadecimal byte as `u8::from_str_radix(_, 16)` reads it:
/// two digits, or a `+` sign and one digit.
pub open spec fn hex_pair(a: int, b: int) -> Option<u8> {
    if hex_value(a) >= 0 && hex_value(b) >= 0 {
        Some((hex_value(a) * 16 + hex_value(b)) as u8)
    } else if a == 43 && hex_value(b) >= 0 {
        Some(hex_value(b) as u8)
    } else {
        None
    }
}

fn hex_digit(c: u32) -> (v: i32)
    ensures
        v == hex_value(c as int),
{
    if 48 <= c && c <= 57 {
        (c - 48) as i32
    } else if 97 <= c && c <= 102 {
        (c - 87) as i32
    } else if 65 <= c && c <= 70 {
        (c - 55) as i32
    } else {
        -1
    }
}

fn parse_pair(a: u32, b: u32) -> (r: Option<u8>)
    ensures
        r == hex_pair(a as int, b as int),
{
    let x = hex_digit(a);
    let y = hex_digit(b);
    if x >= 0 && y >= 0 {
        Some((x * 16 + y) as u8)
    } else if a == 43 && y >= 0 {
        Some(y as u8)
    } else {
        None
    }
}

pub open spec fn hex_color_spec(b: Seq<u8>) -> Option<(u8, u8, u8)> {
    if b.len() != 6 {
        None
    } else {
        match (hex_pair(b[0] as int, b[1] as int), hex_pair(b[2] as int, b[3] as int), hex_pair(b[4] as int, b[5] as int)) {
            (Some(r), Some(g), Some(bl)) => Some((r, g, bl)),
            _ => None,
        }
    }
}

/// Reads a color written `RRGGBB` in hexadecimal.
pub fn parse_hex_color(s: &str) -> (r: Result<(u8, u8, u8), ()>)
    ensures
        r is Ok <==> hex_color_spec(s.spec_bytes()) is Some,
        r is Ok ==> Some(r->Ok_0) == hex_color_spec(s.spec_bytes()),
{
    let b = s.as_bytes();
    if b.len() != 6 {
        return Err(());
    }
    let red = parse_pair(b[0] as u32, b[1] as u32);
    let green = parse_pair(b[2] as u32, b[3] as u32);
    let blue = parse_pair(b[4] as u32, b[5] as u32);
    match (red, green, blue) {
        (Some(x), Some(y), Some(z)) => Ok((x, y, z)),
        _ => Err(()),
    }
}

/// Form decoding: `+` is a space, `%XY` the byte `XY` (read as a character),
/// and a `%` with fewer than two characters after it ends the text.
pub open spec fn url_decoded(cs: Seq<char>) -> Seq<char>
    decreases cs.len(),
{
    if cs.len() == 0 {
        Seq::empty()
    } else if cs[0] == '+' {
        seq![' '] + url_decoded(cs.drop_first())
    } else if cs[0] == '%' {
        if cs.len() < 3 {
            Seq::empty()
        } else {
            match hex_pair(cs[1] as int, cs[2] as int) {
                Some(v) => seq![v as char] + url_decoded(cs.subrange(3, cs.len() as int)),
                None => url_decoded(cs.subrange(3, cs.len() as int)),
            }
        }
    } else {
        seq![cs[0]] + url_decoded(cs.drop_first())
    }
}

pub fn url_decode(s: &str) -> (r: String)
    ensures
        r@ == url_decoded(s@),
{
    let n = s.unicode_len();
    let ghost cs = s@;
    let mut out: Vec<char> = Vec::new();
    let mut i: usize = 0;
    proof {
        assert(cs.subrange(0, n as int) =~= cs);
        assert(out@ + url_decoded(cs) =~= url_decoded(cs));
    }
    while i < n
        invariant
            n == cs.len(),
            cs == s@,
            i <= n,
            out@ + url_decoded(cs.subrange(i as int, n as int)) == url_decoded(cs),
        decreases n - i,
    {
        let ghost rest = cs.subrange(i as int, n as int);
        let ghost out0 = out@;
        let c = s.get_char(i);
        assert(rest[0] == c);
        if c == '+' {
            out.push(' ');
            proof {
                let tail = cs.subrange(i + 1, n as int);
                assert(rest.drop_first() =~= tail);
                assert(out@ + url_decoded(tail) =~= out0 + (seq![' '] + url_decoded(tail)));
            }
            i += 1;
        } else if c == '%' {
            if n - i < 3 {
                proof {
                    assert(url_decoded(cs.subrange(n as int, n as int)) =~= Seq::<char>::empty());
                }
                i = n;
            } else {
                let a = s.get_char(i + 1);
                let b = s.get_char(i + 2);
                let ghost tail = cs.subrange(i + 3, n as int);
                proof {
                    assert(rest.subrange(3, rest.len() as int) =~= tail);
                    assert(rest[1] == a && rest[2] == b);
                }
                match parse_pair(a as u32, b as u32) {
                    Some(v) => {
                        out.push(v as char);
                        proof {
                            assert(out@ + url_decoded(tail) =~= out0 + (seq![v as char] + url_decoded(tail)));
                        }
                    },
                    None => {},
                }
                i += 3;
            }
        } else {
            out.push(c);
            proof {
                let tail = cs.subrange(i + 1, n as int);
                assert(rest.drop_first() =~= tail);
                assert(out@ + url_decoded(tail) =~= out0 + (seq![c] + url_decoded(tail)));
            }
            i += 1;
        }
    }
    proof {
        assert(url_decoded(cs.subrange(n as int, n as int)) =~= Seq::<char>::empty());
        assert(out@ + Seq::<char>::empty() =~= out@);
        assert(cs.subrange(0, n as int) =~= cs);
    }
    string_from_chars(&out)
}

} // verus!
