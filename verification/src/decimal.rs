//! Decimal text of integers, as ASCII bytes.

use vstd::prelude::*;

verus! {

/// ASCII code of the digit zero.
pub const ASCII_ZERO: u8 = 48;

/// ASCII code of the minus sign.
pub const ASCII_MINUS: u8 = 45;

/// Length of the longest decimal text of an `i32`.
pub const MAX_DECIMAL_LEN: usize = 11;

/// The decimal digits of a natural number, most significant first, with no
/// leading zero.
pub open spec fn decimal_digits(value: nat) -> Seq<u8>
    decreases value,
{
    if value < 10 {
        seq![(ASCII_ZERO + value) as u8]
    } else {
        decimal_digits(value / 10).push((ASCII_ZERO + value % 10) as u8)
    }
}

/// The decimal text of an integer: a minus sign if it is negative, then
/// the digits of its magnitude.
pub open spec fn decimal_text(value: int) -> Seq<u8> {
    if value < 0 {
        seq![ASCII_MINUS] + decimal_digits((-value) as nat)
    } else {
        decimal_digits(value as nat)
    }
}

/// Ten to the power `exponent`.
pub open spec fn pow10(exponent: nat) -> nat
    decreases exponent,
{
    if exponent == 0 {
        1
    } else {
        10 * pow10((exponent - 1) as nat)
    }
}

/// A number below ten to the power `exponent` has at most `exponent`
/// digits.
pub proof fn lemma_decimal_digits_len(value: nat, exponent: nat)
    requires
        exponent > 0,
        value < pow10(exponent),
    ensures
        1 <= decimal_digits(value).len() <= exponent,
    decreases exponent,
{
    if value >= 10 {
        assert(pow10(1) == 10) by {
            reveal_with_fuel(pow10, 2);
        }
        lemma_decimal_digits_len(value / 10, (exponent - 1) as nat);
    }
}

/// The decimal text of an `i32` has at most eleven bytes.
pub proof fn lemma_decimal_text_len(value: int)
    requires
        i32::MIN <= value <= i32::MAX,
    ensures
        1 <= decimal_text(value).len() <= MAX_DECIMAL_LEN,
{
    assert(pow10(10) == 10_000_000_000) by {
        reveal_with_fuel(pow10, 11);
    }
    if value < 0 {
        lemma_decimal_digits_len((-value) as nat, 10);
    } else {
        lemma_decimal_digits_len(value as nat, 10);
    }
}

/// The decimal text of `value`, as `i32::to_string` writes it.
pub fn decimal_bytes(value: i32) -> (text: Vec<u8>)
    ensures
        text@ == decimal_text(value as int),
        1 <= text@.len() <= MAX_DECIMAL_LEN,
{
    proof {
        lemma_decimal_text_len(value as int);
    }
    let negative: bool = value < 0;
    let magnitude: u64 = if negative {
        (-(value as i64)) as u64
    } else {
        value as u64
    };
    let mut buffer: [u8; 11] = [0u8; 11];
    let mut start: usize = 11;
    let mut rest: u64 = magnitude;
    proof {
        assert(pow10(10) == 10_000_000_000) by {
            reveal_with_fuel(pow10, 11);
        }
    }
    loop
        invariant_except_break
            1 < start <= 11,
            rest < pow10((start - 1) as nat),
            decimal_digits(magnitude as nat) == decimal_digits(rest as nat) + buffer@.subrange(
                start as int,
                11,
            ),
        ensures
            1 <= start <= 11,
            decimal_digits(magnitude as nat) == buffer@.subrange(start as int, 11),
        decreases start,
    {
        let digit: u8 = ASCII_ZERO + (rest % 10) as u8;
        let ghost before = buffer@;
        start = start - 1;
        buffer[start] = digit;
        assert(buffer@.subrange(start as int, 11) == seq![digit] + before.subrange(
            start + 1,
            11,
        ));
        if rest < 10 {
            break ;
        }
        proof {
            assert(pow10(start as nat) == 10 * pow10((start - 1) as nat));
            assert(pow10(0) == 1);
        }
        rest = rest / 10;
    }
    if negative {
        let ghost before = buffer@;
        start = start - 1;
        buffer[start] = ASCII_MINUS;
        assert(buffer@.subrange(start as int, 11) == seq![ASCII_MINUS] + before.subrange(
            start + 1,
            11,
        ));
    }
    let mut text: Vec<u8> = Vec::new();
    let mut i: usize = start;
    while i < 11
        invariant
            start <= i <= 11,
            text@ == buffer@.subrange(start as int, i as int),
        decreases 11 - i,
    {
        text.push(buffer[i]);
        i = i + 1;
    }
    text
}

} // verus!
