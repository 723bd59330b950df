//! Small string helpers: decimal formatting and single-character append.

use vstd::prelude::*;
use vstd::string::StringExecFns;

verus! {

/// The digit character for a value below ten.
pub open spec fn digit_char(d: int) -> char {
    ((0x30 + d) as u8) as char
}

/// The decimal digits of `n`, most significant first.
pub open spec fn spec_decimal(n: int) -> Seq<char>
    decreases n,
{
    if n < 10 {
        seq![digit_char(n)]
    } else {
        spec_decimal(n / 10).push(digit_char(n % 10))
    }
}

/// The description of a draw batch that always spells out the count.
pub open spec fn draw_cells_description(n: int) -> Seq<char> {
    "Draw "@ + spec_decimal(n) + " cells"@
}

/// The description of a fresh draw batch of `n` operations.
pub open spec fn draw_description(n: int) -> Seq<char> {
    if n == 1 {
        "Draw"@
    } else {
        draw_cells_description(n)
    }
}

/// A decimal representation is never empty and never longer than its value
/// plus one.
pub proof fn lemma_decimal_len(n: int)
    requires
        n >= 0,
    ensures
        1 <= spec_decimal(n).len() <= n + 1,
    decreases n,
{
    if n >= 10 {
        lemma_decimal_len(n / 10);
    }
}

/// Relies on `String::push`: appends exactly the one character.
#[verifier::external_body]
pub(crate) fn push_char(s: &mut String, c: char)
    ensures
        final(s)@ == old(s)@.push(c),
{
    s.push(c);
}

/// Append the decimal digits of `n` to the string.
pub fn push_decimal(s: &mut String, n: usize)
    ensures
        final(s)@ == old(s)@ + spec_decimal(n as int),
    decreases n,
{
    if n < 10 {
        let d = (0x30 + n) as u8;
        push_char(s, d as char);
        proof {
            assert(old(s)@ + spec_decimal(n as int) =~= old(s)@.push(digit_char(n as int)));
        }
    } else {
        push_decimal(s, n / 10);
        let d = (0x30 + n % 10) as u8;
        push_char(s, d as char);
        proof {
            assert(old(s)@ + spec_decimal(n as int) =~= (old(s)@ + spec_decimal(n as int / 10)).push(
                digit_char(n as int % 10),
            ));
        }
    }
}

/// Relies on `str::eq`: two string slices compare equal exactly when their
/// character sequences are equal.
#[verifier::external_body]
pub(crate) fn str_eq(a: &str, b: &str) -> (r: bool)
    ensures
        r == (a@ == b@),
{
    a == b
}

} // verus!
