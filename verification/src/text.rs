//! Numbers as text.

use vstd::arithmetic::power::{lemma_pow_positive, pow};
use vstd::prelude::*;

verus! {

/// The character of a digit.
pub open spec fn digit(value: nat) -> char {
    (48 + value) as char
}

/// A number in decimal, without leading zeros.
pub open spec fn decimal(value: nat) -> Seq<char>
    decreases value,
{
    if value < 10 {
        seq![digit(value)]
    } else {
        decimal(value / 10).push(digit(value % 10))
    }
}

/// The number that a text of digits stands for.
pub open spec fn decimal_value(text: Seq<char>) -> nat
    decreases text.len(),
{
    if text.len() == 0 {
        0
    } else {
        decimal_value(text.drop_last()) * 10 + (text.last() as nat - 48) as nat
    }
}

/// A number written in decimal reads back as the same number.
pub proof fn law_decimal_reads_back(value: nat)
    ensures
        decimal_value(decimal(value)) == value,
    decreases value,
{
    if value < 10 {
        assert(decimal(value).drop_last() =~= Seq::<char>::empty());
        assert(decimal_value(decimal(value).drop_last()) == 0);
    } else {
        law_decimal_reads_back(value / 10);
        assert(decimal(value).drop_last() =~= decimal(value / 10));
    }
}

/// The text of a single digit.
fn digit_text(value: u64) -> (text: &'static str)
    requires
        value < 10,
    ensures
        text@ == seq![digit(value as nat)],
{
    proof {
        reveal_strlit("0");
        reveal_strlit("1");
        reveal_strlit("2");
        reveal_strlit("3");
        reveal_strlit("4");
        reveal_strlit("5");
        reveal_strlit("6");
        reveal_strlit("7");
        reveal_strlit("8");
        reveal_strlit("9");
    }
    match value {
        0 => "0",
        1 => "1",
        2 => "2",
        3 => "3",
        4 => "4",
        5 => "5",
        6 => "6",
        7 => "7",
        8 => "8",
        _ => "9",
    }
}

/// Writes a number in decimal behind a text.
pub fn push_decimal(text: &mut String, value: u64)
    ensures
        final(text)@ == old(text)@ + decimal(value as nat),
    decreases value,
{
    if value >= 10 {
        push_decimal(text, value / 10);
    }
    text.append(digit_text(value % 10));
    assert(text@ =~= old(text)@ + decimal(value as nat));
}

/// The character at a place, counted from the right, is that of the number's digit
/// there; and there are as many places as it takes, one for zero.
pub proof fn law_decimal_has_the_digits(value: nat)
    ensures
        decimal(value).len() >= 1,
        value < pow(10, decimal(value).len()),
        decimal(value).len() > 1 ==> value >= pow(10, (decimal(value).len() - 1) as nat),
        forall|i: nat|
            i < decimal(value).len() ==> (#[trigger] decimal(value)[decimal(value).len() - 1
                - i]) as int == 48 + value as int / pow(10, i) % 10,
    decreases value,
{
    reveal(pow);
    let text = decimal(value);
    assert(pow(10, 0) == 1);
    assert(pow(10, 1) == 10 * pow(10, 0));
    if value >= 10 {
        let front = decimal(value / 10);
        law_decimal_has_the_digits(value / 10);
        let n = front.len();
        assert(text.len() == n + 1);
        assert(pow(10, n + 1) == 10 * pow(10, n));
        if n > 1 {
            assert(pow(10, n) == 10 * pow(10, (n - 1) as nat));
        }
        assert forall|i: nat| i < text.len() implies (#[trigger] text[text.len() - 1 - i]) as int
            == 48 + value as int / pow(10, i) % 10 by {
            if i > 0 {
                let j = (i - 1) as nat;
                assert(text[text.len() - 1 - i] == front[n - 1 - j]);
                assert(pow(10, i) == 10 * pow(10, j));
                lemma_pow_positive(10, j);
                vstd::arithmetic::div_mod::lemma_div_denominator(value as int, 10, pow(10, j));
            }
        }
    }
}

} // verus!
