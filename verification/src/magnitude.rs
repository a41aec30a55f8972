//! Short approximations of large counts, such as "1.2 million".

use crate::decimal::{decimal_digit_chars, decimal_digits, lemma_decimal_digits_len, lemma_pow10_values};
use vstd::prelude::*;
use vstd::string::*;

verus! {

/// `String::push`: appends the character.
pub assume_specification[ String::push ](text: &mut String, c: char)
    ensures
        final(text)@ == old(text)@.push(c),
;

/// The name of the `group`-th power of one thousand, counted from the
/// thousands; there is none past the quintillions.
pub open spec fn scale_word(group: int) -> Option<Seq<char>> {
    if group == 0 {
        Some("thousand"@)
    } else if group == 1 {
        Some("million"@)
    } else if group == 2 {
        Some("billion"@)
    } else if group == 3 {
        Some("trillion"@)
    } else if group == 4 {
        Some("quadrillion"@)
    } else if group == 5 {
        Some("quintillion"@)
    } else {
        None
    }
}

/// The approximation of a number from its decimal digits: up to three
/// digits stand as they are; longer numbers keep the digits in front of the
/// last full group of three, one further digit unless it is zero, and the
/// name of the group. Nothing is rounded.
pub open spec fn humanized_digits(digits: Seq<char>) -> Seq<char> {
    let len = digits.len() as int;
    if len < 4 || len > 20 {
        digits
    } else {
        let lead_len = (len - 4) % 3 + 1;
        match scale_word((len - 4) / 3) {
            None => digits,
            Some(word) => {
                let lead = digits.subrange(0, lead_len);
                let next = digits[lead_len];
                if next == '0' {
                    lead + seq![' '] + word
                } else {
                    lead + seq!['.', next, ' '] + word
                }
            },
        }
    }
}

/// The approximation of `n`.
pub open spec fn humanized(n: u64) -> Seq<char> {
    humanized_digits(decimal_digits(n as nat))
}

/// Numbers below one thousand are written out in full.
pub proof fn lemma_humanized_small(n: u64)
    requires
        n < 1000,
    ensures
        1 <= decimal_digits(n as nat).len() <= 3,
        humanized(n) == decimal_digits(n as nat),
{
    lemma_pow10_values();
    if n < 10 {
        lemma_decimal_digits_len(n as nat, 1);
    } else if n < 100 {
        lemma_decimal_digits_len(n as nat, 2);
    } else {
        lemma_decimal_digits_len(n as nat, 3);
    }
}

/// A four-digit number is written as its first digit, then a point and its
/// second digit unless that is zero, then "thousand".
pub proof fn lemma_humanized_thousands(n: u64)
    requires
        1000 <= n < 10_000,
    ensures
        decimal_digits(n as nat).len() == 4,
        humanized(n) == if decimal_digits(n as nat)[1] == '0' {
            seq![decimal_digits(n as nat)[0], ' '] + "thousand"@
        } else {
            seq![decimal_digits(n as nat)[0], '.', decimal_digits(n as nat)[1], ' '] + "thousand"@
        },
{
    lemma_pow10_values();
    lemma_decimal_digits_len(n as nat, 4);
    let digits = decimal_digits(n as nat);
    let lead = digits.subrange(0, 1);
    assert(lead =~= seq![digits[0]]);
    assert(lead + seq![' '] + "thousand"@ =~= seq![digits[0], ' '] + "thousand"@);
    assert(lead + seq!['.', digits[1], ' '] + "thousand"@ =~= seq![digits[0], '.', digits[1], ' ']
        + "thousand"@);
}

/// The name of a group of three digits, if it has one.
fn scale_name(group: usize) -> (word: Option<&'static str>)
    ensures
        match word {
            Some(w) => scale_word(group as int) == Some(w@),
            None => scale_word(group as int) is None,
        },
{
    if group == 0 {
        Some("thousand")
    } else if group == 1 {
        Some("million")
    } else if group == 2 {
        Some("billion")
    } else if group == 3 {
        Some("trillion")
    } else if group == 4 {
        Some("quadrillion")
    } else if group == 5 {
        Some("quintillion")
    } else {
        None
    }
}

/// A string of the first `count` characters of `chars`.
fn string_of_prefix(chars: &Vec<char>, count: usize) -> (text: String)
    requires
        count <= chars@.len(),
    ensures
        text@ == chars@.subrange(0, count as int),
{
    let mut text = String::new();
    let mut i: usize = 0;
    while i < count
        invariant
            i <= count <= chars@.len(),
            text@ == chars@.subrange(0, i as int),
        decreases count - i,
    {
        text.push(chars[i]);
        proof {
            assert(chars@.subrange(0, i + 1) == chars@.subrange(0, i as int).push(chars@[i as int]));
        }
        i = i + 1;
    }
    text
}

/// Writes `n` as a short approximation: in full below one thousand, and
/// from there on as the leading digits, at most one decimal, and the name of
/// the magnitude.
pub fn humanize(n: u64) -> (text: String)
    ensures
        text@ == humanized(n),
        n < 1000 ==> text@ == decimal_digits(n as nat),
        1000 <= n < 10_000 ==> text@ == if decimal_digits(n as nat)[1] == '0' {
            seq![decimal_digits(n as nat)[0], ' '] + "thousand"@
        } else {
            seq![decimal_digits(n as nat)[0], '.', decimal_digits(n as nat)[1], ' '] + "thousand"@
        },
{
    proof {
        if n < 1000 {
            lemma_humanized_small(n);
        } else if n < 10_000 {
            lemma_humanized_thousands(n);
        }
    }
    let digits = decimal_digit_chars(n);
    let len = digits.len();
    if len < 4 || len > 20 {
        let text = string_of_prefix(&digits, len);
        assert(digits@.subrange(0, len as int) == digits@);
        return text;
    }
    let lead_len = (len - 4) % 3 + 1;
    match scale_name((len - 4) / 3) {
        None => {
            let text = string_of_prefix(&digits, len);
            assert(digits@.subrange(0, len as int) == digits@);
            text
        },
        Some(word) => {
            let mut text = string_of_prefix(&digits, lead_len);
            let next = digits[lead_len];
            let ghost lead = text@;
            if next != '0' {
                text.push('.');
                text.push(next);
            }
            text.push(' ');
            text.append(word);
            proof {
                assert(lead.push(' ') == lead + seq![' ']);
                assert(lead.push('.').push(next).push(' ') == lead + seq!['.', next, ' ']);
            }
            text
        },
    }
}

/// Two calls with one number give one text: nothing but the number decides
/// what is written.
pub proof fn lemma_humanize_repeatable(n: u64, first: String, second: String)
    requires
        call_ensures(humanize, (n,), first),
        call_ensures(humanize, (n,), second),
    ensures
        first@ == second@,
{
}

} // verus!
