//! Decimal text of integers and of halves of integers.

use vstd::prelude::*;
use vstd::string::StringExecFns;

verus! {

/// The character of the decimal digit `d`.
pub open spec fn digit(d: int) -> char {
    seq!['0', '1', '2', '3', '4', '5', '6', '7', '8', '9'][d]
}

/// The decimal digits of `n`, most significant first, without leading zeros.
pub open spec fn decimal(n: nat) -> Seq<char>
    decreases n,
{
    if n < 10 {
        seq![digit(n as int)]
    } else {
        decimal(n / 10).push(digit((n % 10) as int))
    }
}

/// The decimal text of `twice / 2`: a minus sign where it is negative, the
/// integer part, and `.5` where `twice` is odd.
pub open spec fn half_decimal(twice: int) -> Seq<char> {
    let magnitude = if twice < 0 {
        -twice
    } else {
        twice
    };
    let sign = if twice < 0 {
        seq!['-']
    } else {
        Seq::<char>::empty()
    };
    let fraction = if magnitude % 2 == 1 {
        seq!['.', '5']
    } else {
        Seq::<char>::empty()
    };
    sign + decimal((magnitude / 2) as nat) + fraction
}

/// The digits of a number hold no line feed.
pub proof fn lemma_decimal_is_one_line(n: nat)
    ensures
        !decimal(n).contains('\n'),
    decreases n,
{
    if n >= 10 {
        lemma_decimal_is_one_line(n / 10);
    }
}

/// The text of half an integer holds no line feed.
pub proof fn lemma_half_decimal_is_one_line(twice: int)
    ensures
        !half_decimal(twice).contains('\n'),
{
    let magnitude = if twice < 0 {
        -twice
    } else {
        twice
    };
    lemma_decimal_is_one_line((magnitude / 2) as nat);
}

/// The text of a single decimal digit.
fn digit_str(d: u8) -> (s: &'static str)
    requires
        d < 10,
    ensures
        s@ == seq![digit(d as int)],
{
    proof {
        reveal_strlit("0");
        reveal_strlit("1");
        reveal_strlit("2");
        reveal_strlit("3");
        reveal_strlit("4");
        reveal_strlit("5");
        reveal_strlit("6");
        reveal_strlit("7");
        reveal_strlit("8");
        reveal_strlit("9");
    }
    let s = match d {
        0 => "0",
        1 => "1",
        2 => "2",
        3 => "3",
        4 => "4",
        5 => "5",
        6 => "6",
        7 => "7",
        8 => "8",
        _ => "9",
    };
    assert(s@ =~= seq![digit(d as int)]);
    s
}

/// Appends the decimal digits of `n` to `out`.
pub fn push_decimal(out: &mut String, n: u128)
    ensures
        final(out)@ == old(out)@ + decimal(n as nat),
    decreases n,
{
    if n >= 10 {
        push_decimal(out, n / 10);
    }
    out.append(digit_str((n % 10) as u8));
    assert(out@ =~= old(out)@ + decimal(n as nat));
}

/// Appends the decimal text of `twice / 2` to `out`.
pub fn push_half_decimal(out: &mut String, twice: i64)
    ensures
        final(out)@ == old(out)@ + half_decimal(twice as int),
{
    proof {
        reveal_strlit("-");
        reveal_strlit(".5");
    }
    let magnitude: u128 = if twice < 0 {
        out.append("-");
        (-(twice as i128)) as u128
    } else {
        twice as u128
    };
    push_decimal(out, magnitude / 2);
    if magnitude % 2 == 1 {
        out.append(".5");
    }
    assert(out@ =~= old(out)@ + half_decimal(twice as int));
}

} // verus!
