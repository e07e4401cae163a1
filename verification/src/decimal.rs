//! Decimal numerals of natural numbers.

use vstd::prelude::*;

verus! {

/// The ten decimal digits in ascending order.
pub open spec fn digits() -> Seq<char> {
    seq!['0', '1', '2', '3', '4', '5', '6', '7', '8', '9']
}

/// The character that stands for the digit `d`, for `d` below ten.
pub open spec fn digit_char(d: nat) -> char
    recommends
        d < 10,
{
    digits()[d as int]
}

/// The decimal numeral of `n`: most significant digit first, without a sign
/// and without leading zeros; the numeral of zero is `0`.
pub open spec fn decimal_text(n: nat) -> Seq<char>
    decreases n,
{
    if n < 10 {
        seq![digit_char(n)]
    } else {
        decimal_text(n / 10).push(digit_char(n % 10))
    }
}

/// The digit that `c` stands for; ten where `c` is no decimal digit.
pub open spec fn digit_value(c: char) -> nat {
    if digits().contains(c) {
        digits().index_of(c) as nat
    } else {
        10
    }
}

/// The number that a sequence of decimal digits denotes.
pub open spec fn decimal_value(text: Seq<char>) -> nat
    decreases text.len(),
{
    if text.len() == 0 {
        0
    } else {
        10 * decimal_value(text.drop_last()) + digit_value(text.last())
    }
}

/// A digit character denotes the digit it was made from.
pub proof fn lemma_digit_value(d: nat)
    requires
        d < 10,
    ensures
        digit_value(digit_char(d)) == d,
{
    let c = digit_char(d);
    assert(digits()[d as int] == c);
    assert(digits().contains(c));
    let i = digits().index_of(c);
    assert(0 <= i < 10 && digits()[i] == c);
    assert(i == d) by {
        assert(forall|a: int, b: int| 0 <= a < b < 10 ==> digits()[a] != digits()[b]);
    }
}

/// A numeral denotes the number it was written for, so two different
/// numbers never share a numeral.
pub proof fn lemma_decimal_value(n: nat)
    ensures
        decimal_value(decimal_text(n)) == n,
    decreases n,
{
    if n < 10 {
        let text = decimal_text(n);
        lemma_digit_value(n);
        assert(text.drop_last() =~= Seq::<char>::empty());
        assert(decimal_value(text.drop_last()) == 0);
    } else {
        let text = decimal_text(n);
        lemma_decimal_value(n / 10);
        lemma_digit_value(n % 10);
        assert(text.drop_last() =~= decimal_text(n / 10));
        assert(text.last() == digit_char(n % 10));
    }
}

/// A numeral is never empty, holds decimal digits only, and begins with
/// `0` only where the number is zero.
pub proof fn lemma_decimal_shape(n: nat)
    ensures
        decimal_text(n).len() >= 1,
        forall|i: int| 0 <= i < decimal_text(n).len() ==> digits().contains(#[trigger] decimal_text(n)[i]),
        decimal_text(n)[0] == '0' <==> n == 0,
    decreases n,
{
    if n < 10 {
        assert(digits()[n as int] == digit_char(n));
    } else {
        lemma_decimal_shape(n / 10);
        assert(digits()[(n % 10) as int] == digit_char(n % 10));
        let text = decimal_text(n);
        let front = decimal_text(n / 10);
        assert forall|i: int| 0 <= i < text.len() implies digits().contains(#[trigger] text[i]) by {
            if i < front.len() {
                assert(text[i] == front[i]);
            }
        }
        assert(text[0] == front[0]);
    }
}

/// The one-character string of the digit `d`.
fn digit_str(d: u8) -> (text: &'static str)
    requires
        d < 10,
    ensures
        text@ == seq![digit_char(d as nat)],
{
    proof {
        reveal_strlit("0");
        reveal_strlit("1");
        reveal_strlit("2");
        reveal_strlit("3");
        reveal_strlit("4");
        reveal_strlit("5");
        reveal_strlit("6");
        reveal_strlit("7");
        reveal_strlit("8");
        reveal_strlit("9");
    }
    let text = match d {
        0 => "0",
        1 => "1",
        2 => "2",
        3 => "3",
        4 => "4",
        5 => "5",
        6 => "6",
        7 => "7",
        8 => "8",
        _ => "9",
    };
    assert(text@ =~= seq![digit_char(d as nat)]);
    text
}

/// Writes `n` as a decimal numeral.
pub fn decimal(n: u128) -> (text: String)
    ensures
        text@ == decimal_text(n as nat),
    decreases n,
{
    if n < 10 {
        String::from_str(digit_str(n as u8))
    } else {
        let mut text = decimal(n / 10);
        text.append(digit_str((n % 10) as u8));
        assert(text@ =~= decimal_text(n as nat));
        text
    }
}

} // verus!
