//! Small text helpers shared by the modules that build strings.
use vstd::prelude::*;

verus! {

/// Relies on std's `FromIterator<char>` for `String`: the string holds exactly
/// the given characters, in order.
#[verifier::external_body]
pub(crate) fn string_from_chars(cs: &Vec<char>) -> (s: String)
    ensures
        s@ == cs@,
{
    cs.iter().collect()
}

/// The decimal digit character for `d` (0..=9).
pub open spec fn digit_char(d: int) -> char {
    (48 + d) as char
}

/// `v` in decimal, left-padded with zeros to at least `width` digits.
pub open spec fn decimal(v: nat, width: nat) -> Seq<char>
    decreases v + width,
{
    if v < 10 && width <= 1 {
        seq![digit_char(v as int)]
    } else {
        decimal(v / 10, if width >= 1 { (width - 1) as nat } else { 0 }).push(digit_char((v % 10) as int))
    }
}

/// Appends `v` in decimal, left-padded with zeros to at least `width` digits.
pub fn push_decimal(out: &mut Vec<char>, v: u32, width: u32)
    ensures
        final(out)@ == old(out)@ + decimal(v as nat, width as nat),
    decreases v + width,
{
    if v < 10 && width <= 1 {
        out.push(((48 + v) as u8) as char);
        assert(out@ =~= old(out)@ + decimal(v as nat, width as nat));
    } else {
        let w = if width >= 1 { width - 1 } else { 0 };
        push_decimal(out, v / 10, w);
        out.push(((48 + v % 10) as u8) as char);
        assert(out@ =~= old(out)@ + decimal(v as nat, width as nat));
    }
}

} // verus!
