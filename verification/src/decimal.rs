//! Decimal notation of unsigned integers.

use vstd::prelude::*;

verus! {

/// The character that writes the digit `d`, for `0 <= d <= 9`.
pub open spec fn digit_char(d: int) -> char {
    if d == 0 {
        '0'
    } else if d == 1 {
        '1'
    } else if d == 2 {
        '2'
    } else if d == 3 {
        '3'
    } else if d == 4 {
        '4'
    } else if d == 5 {
        '5'
    } else if d == 6 {
        '6'
    } else if d == 7 {
        '7'
    } else if d == 8 {
        '8'
    } else {
        '9'
    }
}

/// The decimal notation of `n`, most significant digit first, without
/// leading zeros; zero is written `"0"`.
pub open spec fn decimal_digits(n: nat) -> Seq<char>
    decreases n,
{
    if n < 10 {
        seq![digit_char(n as int)]
    } else {
        decimal_digits(n / 10).push(digit_char((n % 10) as int))
    }
}

/// Ten to the power `k`.
pub open spec fn pow10(k: nat) -> nat
    decreases k,
{
    if k == 0 {
        1
    } else {
        10 * pow10((k - 1) as nat)
    }
}

/// A number has `k` decimal digits exactly when it lies between the
/// neighbouring powers of ten.
pub proof fn lemma_decimal_digits_len(n: nat, k: nat)
    requires
        k >= 1,
        n < pow10(k),
        k == 1 || pow10((k - 1) as nat) <= n,
    ensures
        decimal_digits(n).len() == k,
    decreases k,
{
    if k == 1 {
        assert(pow10(1) == 10) by {
            reveal_with_fuel(pow10, 2);
        }
    } else {
        assert(pow10(k) == 10 * pow10((k - 1) as nat));
        assert(pow10((k - 1) as nat) >= 10) by {
            lemma_pow10_grows((k - 1) as nat);
        }
        assert(n >= 10);
        lemma_decimal_digits_len(n / 10, (k - 1) as nat);
    }
}

/// From the first power on, a power of ten is at least ten.
pub proof fn lemma_pow10_grows(k: nat)
    requires
        k >= 1,
    ensures
        pow10(k) >= 10,
    decreases k,
{
    if k > 1 {
        lemma_pow10_grows((k - 1) as nat);
    } else {
        reveal_with_fuel(pow10, 2);
    }
}

/// The character for one decimal digit.
pub fn digit_to_char(d: u8) -> (c: char)
    requires
        d <= 9,
    ensures
        c == digit_char(d as int),
{
    if d == 0 {
        '0'
    } else if d == 1 {
        '1'
    } else if d == 2 {
        '2'
    } else if d == 3 {
        '3'
    } else if d == 4 {
        '4'
    } else if d == 5 {
        '5'
    } else if d == 6 {
        '6'
    } else if d == 7 {
        '7'
    } else if d == 8 {
        '8'
    } else {
        '9'
    }
}

/// The decimal digits of `n`, most significant first.
pub fn decimal_digit_chars(n: u64) -> (digits: Vec<char>)
    ensures
        digits@ == decimal_digits(n as nat),
        1 <= digits@.len() <= 20,
{
    let mut reversed: Vec<char> = Vec::new();
    let mut rest: u64 = n;
    proof {
        assert(pow10(0) == 1);
        assert(reversed@.reverse() =~= Seq::<char>::empty());
        assert(decimal_digits(n as nat) + Seq::<char>::empty() =~= decimal_digits(n as nat));
    }
    while rest >= 10
        invariant
            reversed@.len() <= 19,
            rest as nat * pow10(reversed@.len()) <= n,
            decimal_digits(n as nat) == decimal_digits(rest as nat) + reversed@.reverse(),
        decreases rest,
    {
        let low: u8 = (rest % 10) as u8;
        let c = digit_to_char(low);
        proof {
            let k = reversed@.len();
            assert(decimal_digits(rest as nat) == decimal_digits((rest / 10) as nat).push(c));
            assert(reversed@.push(c).reverse() == seq![c] + reversed@.reverse());
            assert(decimal_digits((rest / 10) as nat).push(c) + reversed@.reverse()
                == decimal_digits((rest / 10) as nat) + (seq![c] + reversed@.reverse()));
            assert(pow10(k + 1) == 10 * pow10(k));
            assert((rest / 10) as nat * pow10(k + 1) <= rest as nat * pow10(k)) by (nonlinear_arith)
                requires
                    pow10(k + 1) == 10 * pow10(k),
                    (rest / 10) * 10 <= rest,
            ;
            if k == 19 {
                lemma_pow10_values();
                assert(rest as nat * pow10(19) >= 10 * pow10(19)) by (nonlinear_arith)
                    requires
                        rest >= 10,
                ;
            }
        }
        reversed.push(c);
        rest = rest / 10;
    }
    let lead = digit_to_char(rest as u8);
    let mut digits: Vec<char> = Vec::new();
    digits.push(lead);
    let mut i: usize = reversed.len();
    while i > 0
        invariant
            i <= reversed@.len(),
            reversed@.len() <= 19,
            digits@ == seq![lead] + reversed@.reverse().subrange(0, reversed@.len() - i),
        decreases i,
    {
        i = i - 1;
        digits.push(reversed[i]);
        proof {
            let r = reversed@.reverse();
            let j = reversed@.len() - i - 1;
            assert(r[j] == reversed@[i as int]);
            assert(r.subrange(0, j + 1) == r.subrange(0, j).push(r[j]));
        }
    }
    proof {
        let r = reversed@.reverse();
        assert(r.subrange(0, r.len() as int) == r);
        assert(decimal_digits(rest as nat) == seq![lead]);
    }
    digits
}

/// The powers of ten that bound a 64-bit number.
pub proof fn lemma_pow10_values()
    ensures
        pow10(0) == 1,
        pow10(1) == 10,
        pow10(2) == 100,
        pow10(3) == 1_000,
        pow10(4) == 10_000,
        pow10(19) == 10_000_000_000_000_000_000,
        pow10(20) == 100_000_000_000_000_000_000,
{
    reveal_with_fuel(pow10, 21);
}

} // verus!
