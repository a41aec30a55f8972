//! Where the captions of the statistics block cannot occur: in numbers, in
//! approximated counts, and in the escaped form of a text that is free of
//! them.

use crate::decimal::{decimal_digits, digit_char};
use crate::magnitude::{humanized, scale_word};
use crate::markup::{escaped_char, html_escaped};
use crate::phrases::{
    fenced, free_of, lemma_free_if_shorter, lemma_free_if_wordless, lemma_free_joined,
    lemma_occurs_in_parts, occurs_at, word_char, word_phrase,
};
use vstd::prelude::*;
use vstd::string::*;

verus! {

/// One of the ten digits.
pub open spec fn is_digit(c: char) -> bool {
    exists|d: int| 0 <= d <= 9 && c == #[trigger] digit_char(d)
}

/// Decimal notation is made of digits, at least one.
pub(crate) proof fn lemma_decimal_digits_are_digits(n: nat)
    ensures
        decimal_digits(n).len() > 0,
        forall|i: int| 0 <= i < decimal_digits(n).len() ==> is_digit(#[trigger] decimal_digits(n)[i]),
    decreases n,
{
    if n < 10 {
        assert(decimal_digits(n)[0] == digit_char(n as int));
    } else {
        lemma_decimal_digits_are_digits(n / 10);
        let front = decimal_digits(n / 10);
        let last = digit_char((n % 10) as int);
        assert forall|i: int| 0 <= i < decimal_digits(n).len() implies is_digit(
            #[trigger] decimal_digits(n)[i],
        ) by {
            if i < front.len() {
                assert(decimal_digits(n)[i] == front[i]);
            } else {
                assert(decimal_digits(n)[i] == last);
            }
        }
    }
}

/// No digit is a word character.
pub(crate) proof fn lemma_digit_no_word_char(c: char)
    requires
        is_digit(c),
    ensures
        !word_char(c),
{
}

/// A number in decimal notation begins and ends with a digit and holds no
/// phrase of words.
pub proof fn lemma_number_free(n: nat, phrase: Seq<char>)
    requires
        word_phrase(phrase),
    ensures
        fenced(decimal_digits(n)),
        free_of(decimal_digits(n), phrase),
{
    lemma_decimal_digits_are_digits(n);
    let digits = decimal_digits(n);
    assert forall|i: int| 0 <= i < digits.len() implies !word_char(#[trigger] digits[i]) by {
        lemma_digit_no_word_char(digits[i]);
    }
    lemma_free_if_wordless(digits, phrase);
}

/// An approximated count holds no phrase of words longer than the name of
/// a magnitude with the space before it.
pub proof fn lemma_humanized_free(n: u64, phrase: Seq<char>)
    requires
        word_phrase(phrase),
        phrase.len() > 12,
    ensures
        free_of(humanized(n), phrase),
{
    let digits = decimal_digits(n as nat);
    lemma_number_free(n as nat, phrase);
    lemma_decimal_digits_are_digits(n as nat);
    let len = digits.len() as int;
    if len >= 4 && len <= 20 {
        let lead_len = (len - 4) % 3 + 1;
        let word = scale_word((len - 4) / 3)->0;
        reveal_strlit("thousand");
        reveal_strlit("million");
        reveal_strlit("billion");
        reveal_strlit("trillion");
        reveal_strlit("quadrillion");
        reveal_strlit("quintillion");
        assert(word.len() <= 11);
        let lead = digits.subrange(0, lead_len);
        let next = digits[lead_len];
        let front = if next == '0' {
            lead
        } else {
            lead + seq!['.', next]
        };
        let tail = seq![' '] + word;
        assert(humanized(n) =~= front + tail);
        assert forall|i: int| 0 <= i < front.len() implies !word_char(#[trigger] front[i]) by {
            if i < lead_len {
                assert(front[i] == digits[i]);
                lemma_digit_no_word_char(digits[i]);
            } else if i == lead_len + 1 {
                lemma_digit_no_word_char(next);
            }
        }
        lemma_free_if_wordless(front, phrase);
        lemma_free_if_shorter(tail, phrase);
        assert(!word_char(front.last()));
        lemma_free_joined(front, tail, phrase);
    }
}

/// The text ends with the given characters.
pub open spec fn ends_with(text: Seq<char>, end: Seq<char>) -> bool {
    end.len() <= text.len() && text.subrange(text.len() - end.len(), text.len() as int) == end
}

/// Where the escaped form of a text ends with word characters, the text
/// ends with the same: no entity ends with a word character.
pub(crate) proof fn lemma_escaped_end(text: Seq<char>, end: Seq<char>)
    requires
        forall|i: int| 0 <= i < end.len() ==> word_char(#[trigger] end[i]),
        ends_with(html_escaped(text), end),
    ensures
        ends_with(text, end),
    decreases end.len(),
{
    if end.len() == 0 {
        assert(text.subrange(text.len() as int, text.len() as int) =~= end);
    } else {
        let escaped = html_escaped(text);
        assert(text.len() > 0);
        let front = text.drop_last();
        let c = text.last();
        let found = escaped.subrange(escaped.len() - end.len(), escaped.len() as int);
        assert(found.last() == escaped.last());
        assert(word_char(end[end.len() - 1]));
        assert(escaped == html_escaped(front) + escaped_char(c));
        assert(escaped_char(c) == seq![c]);
        let shorter = end.drop_last();
        assert(html_escaped(front).subrange(
            html_escaped(front).len() - shorter.len(),
            html_escaped(front).len() as int,
        ) =~= found.drop_last());
        lemma_escaped_end(front, shorter);
        assert(found == end);
        assert(escaped.last() == c);
        assert(end =~= shorter.push(c));
        assert(front.subrange(front.len() - shorter.len(), front.len() as int) == shorter);
        assert(text.subrange(text.len() - end.len(), text.len() as int) =~= front.subrange(
            front.len() - shorter.len(),
            front.len() as int,
        ).push(c));
    }
}

/// Escaping brings no phrase of words into a text, if the phrase is longer
/// than every entity.
pub proof fn lemma_escaped_free(text: Seq<char>, phrase: Seq<char>)
    requires
        word_phrase(phrase),
        phrase.len() > 6,
        free_of(text, phrase),
    ensures
        free_of(html_escaped(text), phrase),
    decreases text.len(),
{
    if text.len() > 0 {
        let front = text.drop_last();
        let c = text.last();
        let n = phrase.len() as int;
        assert forall|at: int| !#[trigger] occurs_at(front, phrase, at) by {
            if occurs_at(front, phrase, at) {
                assert(text.subrange(at, at + n) =~= front.subrange(at, at + n));
                assert(occurs_at(text, phrase, at));
            }
        }
        lemma_escaped_free(front, phrase);
        let left = html_escaped(front);
        let right = escaped_char(c);
        assert forall|at: int| !#[trigger] occurs_at(left + right, phrase, at) by {
            if occurs_at(left + right, phrase, at) {
                if c == '&' || c == '<' || c == '>' || c == '"' {
                    assert(!word_char(right[0]));
                    lemma_occurs_in_parts(left, right, phrase, at);
                    assert(!occurs_at(left, phrase, at));
                } else {
                    let whole = left + right;
                    if at + n <= left.len() {
                        assert(left.subrange(at, at + n) =~= whole.subrange(at, at + n));
                        assert(occurs_at(left, phrase, at));
                    } else {
                        assert(whole == html_escaped(text));
                        assert(at + n == whole.len());
                        lemma_escaped_end(text, phrase);
                        assert(occurs_at(text, phrase, text.len() - n));
                    }
                }
            }
        }
    }
}

} // verus!
