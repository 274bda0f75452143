//! Decimal and thousands-grouped number text.
use vstd::prelude::*;

verus! {

/// The decimal digit character for `d < 10`.
pub open spec fn digit_char(d: int) -> char {
    ('0' as int + d) as char
}

/// `n` in decimal, without leading zeros.
pub open spec fn decimal(n: nat) -> Seq<char>
    decreases n,
{
    if n < 10 {
        seq![digit_char(n as int)]
    } else {
        decimal(n / 10).push(digit_char((n % 10) as int))
    }
}

/// `n` below 1000 as exactly three digits.
pub open spec fn three_digits(n: nat) -> Seq<char> {
    seq![
        digit_char((n / 100) as int),
        digit_char(((n / 10) % 10) as int),
        digit_char((n % 10) as int),
    ]
}

/// `n` in decimal with a comma between groups of three digits.
pub open spec fn grouped(n: nat) -> Seq<char>
    decreases n,
{
    if n < 1000 {
        decimal(n)
    } else {
        grouped(n / 1000) + seq![','] + three_digits(n % 1000)
    }
}

fn digit(d: u64) -> (c: char)
    requires
        d < 10,
    ensures
        c == digit_char(d as int),
{
    ((d as u8) + 48) as char
}

/// Appends `n` in decimal to `out`.
pub fn push_decimal(out: &mut Vec<char>, n: u64)
    ensures
        final(out)@ == old(out)@ + decimal(n as nat),
    decreases n,
{
    if n >= 10 {
        push_decimal(out, n / 10);
    }
    out.push(digit(n % 10));
    assert(out@ =~= old(out)@ + decimal(n as nat));
}

/// Relies on `num_format::ToFormattedString::to_formatted_string` with
/// `Locale::en`, whose separator is `,` and whose grouping is by threes.
#[verifier::external_body]
fn en_grouped(n: u64) -> (r: String)
    ensures
        r@ == grouped(n as nat),
{
    num_format::ToFormattedString::to_formatted_string(&n, &num_format::Locale::en)
}

/// A count written with thousands separators, as in `12,345`.
pub fn num(n: u64) -> (r: String)
    ensures
        r@ == grouped(n as nat),
{
    en_grouped(n)
}

} // verus!
