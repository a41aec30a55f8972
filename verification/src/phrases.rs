//! Where a phrase occurs in a text, and how that is decided for a text put
//! together from parts.

use vstd::prelude::*;
use vstd::string::*;

verus! {

/// The text holds the phrase from position `at` on.
pub open spec fn occurs_at(text: Seq<char>, phrase: Seq<char>, at: int) -> bool {
    0 <= at && at + phrase.len() <= text.len() && text.subrange(at, at + phrase.len()) == phrase
}

/// The text holds the phrase nowhere.
pub open spec fn free_of(text: Seq<char>, phrase: Seq<char>) -> bool {
    forall|at: int| !#[trigger] occurs_at(text, phrase, at)
}

/// The text holds the phrase at `at` and nowhere else.
pub open spec fn occurs_only_at(text: Seq<char>, phrase: Seq<char>, at: int) -> bool {
    forall|i: int| #[trigger] occurs_at(text, phrase, i) <==> i == at
}

/// A lower-case letter or a space.
pub open spec fn word_char(c: char) -> bool {
    c == ' ' || ('a' as int <= c as int && c as int <= 'z' as int)
}

/// A phrase of lower-case words: at least one character, each a lower-case
/// letter or a space.
pub open spec fn word_phrase(phrase: Seq<char>) -> bool {
    phrase.len() > 0 && forall|i: int| 0 <= i < phrase.len() ==> word_char(#[trigger] phrase[i])
}

/// No phrase of words reaches across the place where `left` and `right`
/// meet: `left` ends, or `right` begins, with a character that is no word
/// character.
pub open spec fn parted(left: Seq<char>, right: Seq<char>) -> bool {
    (left.len() > 0 && !word_char(left.last())) || (right.len() > 0 && !word_char(right[0]))
}

/// A text that keeps phrases of words apart on both sides: it begins and
/// ends with a character that is no word character.
pub open spec fn fenced(text: Seq<char>) -> bool {
    text.len() > 0 && !word_char(text[0]) && !word_char(text.last())
}

/// Where two texts are parted, a phrase of words occurs in their
/// concatenation exactly where it occurs in one of them.
pub proof fn lemma_occurs_in_parts(left: Seq<char>, right: Seq<char>, phrase: Seq<char>, at: int)
    requires
        word_phrase(phrase),
        parted(left, right),
    ensures
        occurs_at(left + right, phrase, at) <==> occurs_at(left, phrase, at) || occurs_at(
            right,
            phrase,
            at - left.len(),
        ),
{
    let whole = left + right;
    let n = phrase.len() as int;
    if occurs_at(left, phrase, at) {
        assert(whole.subrange(at, at + n) =~= left.subrange(at, at + n));
    }
    if occurs_at(right, phrase, at - left.len()) {
        assert(whole.subrange(at, at + n) =~= right.subrange(at - left.len(), at - left.len() + n));
    }
    if occurs_at(whole, phrase, at) {
        let found = whole.subrange(at, at + n);
        if at + n <= left.len() {
            assert(left.subrange(at, at + n) =~= found);
        } else if at >= left.len() {
            assert(right.subrange(at - left.len(), at - left.len() + n) =~= found);
        } else {
            if left.len() > 0 && !word_char(left.last()) {
                assert(found[left.len() - 1 - at] == left.last());
                assert(word_char(phrase[left.len() - 1 - at]));
            } else {
                assert(found[left.len() - at] == right[0]);
                assert(word_char(phrase[left.len() - at]));
            }
        }
    }
}

/// Two parted texts free of a phrase make a text free of it.
pub proof fn lemma_free_joined(left: Seq<char>, right: Seq<char>, phrase: Seq<char>)
    requires
        word_phrase(phrase),
        parted(left, right),
        free_of(left, phrase),
        free_of(right, phrase),
    ensures
        free_of(left + right, phrase),
{
    assert forall|at: int| !#[trigger] occurs_at(left + right, phrase, at) by {
        lemma_occurs_in_parts(left, right, phrase, at);
        assert(!occurs_at(left, phrase, at));
        assert(!occurs_at(right, phrase, at - left.len()));
    }
}

/// A text that holds a phrase once still holds it once, at the same place,
/// when a parted text free of the phrase follows.
pub proof fn lemma_once_then_free(left: Seq<char>, right: Seq<char>, phrase: Seq<char>, at: int)
    requires
        word_phrase(phrase),
        parted(left, right),
        occurs_only_at(left, phrase, at),
        free_of(right, phrase),
    ensures
        occurs_only_at(left + right, phrase, at),
{
    assert forall|i: int| #[trigger] occurs_at(left + right, phrase, i) <==> i == at by {
        lemma_occurs_in_parts(left, right, phrase, i);
        assert(occurs_at(left, phrase, i) <==> i == at);
        assert(!occurs_at(right, phrase, i - left.len()));
    }
}

/// A text free of a phrase, followed by a parted text that holds it once,
/// makes a text that holds it once, further on by the length of the first.
pub proof fn lemma_free_then_once(left: Seq<char>, right: Seq<char>, phrase: Seq<char>, at: int)
    requires
        word_phrase(phrase),
        parted(left, right),
        free_of(left, phrase),
        occurs_only_at(right, phrase, at),
    ensures
        occurs_only_at(left + right, phrase, left.len() + at),
{
    assert forall|i: int| #[trigger] occurs_at(left + right, phrase, i) <==> i == left.len()
        + at by {
        lemma_occurs_in_parts(left, right, phrase, i);
        assert(!occurs_at(left, phrase, i));
        assert(occurs_at(right, phrase, i - left.len()) <==> i - left.len() == at);
    }
}

/// A text shorter than a phrase is free of it.
pub proof fn lemma_free_if_shorter(text: Seq<char>, phrase: Seq<char>)
    requires
        text.len() < phrase.len(),
    ensures
        free_of(text, phrase),
{
}

/// A text without a word character is free of every phrase of words.
pub proof fn lemma_free_if_wordless(text: Seq<char>, phrase: Seq<char>)
    requires
        word_phrase(phrase),
        forall|i: int| 0 <= i < text.len() ==> !word_char(#[trigger] text[i]),
    ensures
        free_of(text, phrase),
{
    assert forall|at: int| !#[trigger] occurs_at(text, phrase, at) by {
        if occurs_at(text, phrase, at) {
            assert(text.subrange(at, at + phrase.len())[0] == text[at]);
            assert(word_char(phrase[0]));
        }
    }
}

/// A text is free of a phrase if no two of its characters stand to each
/// other as two chosen characters of the phrase do.
pub proof fn lemma_free_by_marks(text: Seq<char>, phrase: Seq<char>, first: int, second: int)
    requires
        0 <= first <= second < phrase.len(),
        forall|i: int|
            0 <= i && i + (second - first) < text.len() && #[trigger] text[i] == phrase[first]
                ==> text[i + (second - first)] != phrase[second],
    ensures
        free_of(text, phrase),
{
    assert forall|at: int| !#[trigger] occurs_at(text, phrase, at) by {
        if occurs_at(text, phrase, at) {
            let found = text.subrange(at, at + phrase.len());
            assert(found[first] == text[at + first]);
            assert(found[second] == text[at + first + (second - first)]);
        }
    }
}

/// A text holds a phrase at one place only if it holds it there and no two
/// characters elsewhere stand to each other as two chosen characters of the
/// phrase do.
pub proof fn lemma_once_by_marks(
    text: Seq<char>,
    phrase: Seq<char>,
    at: int,
    first: int,
    second: int,
)
    requires
        0 <= first <= second < phrase.len(),
        occurs_at(text, phrase, at),
        forall|i: int|
            0 <= i && i + (second - first) < text.len() && i != at + first && #[trigger] text[i]
                == phrase[first] ==> text[i + (second - first)] != phrase[second],
    ensures
        occurs_only_at(text, phrase, at),
{
    assert forall|i: int| #[trigger] occurs_at(text, phrase, i) implies i == at by {
        let found = text.subrange(i, i + phrase.len());
        assert(found[first] == text[i + first]);
        assert(found[second] == text[i + first + (second - first)]);
    }
}

/// The caption that tells the number of requests.
pub const REQUESTS_PHRASE: &'static str = "requests served";

/// The caption that tells the bandwidth.
pub const BANDWIDTH_PHRASE: &'static str = "worth of polyfills served";

/// One of the two captions of the statistics block.
pub open spec fn stats_phrase(phrase: Seq<char>) -> bool {
    phrase == REQUESTS_PHRASE@ || phrase == BANDWIDTH_PHRASE@
}

/// The text has no `q` with an `s` five places on, and no `w` with an `o`
/// next to it, as the two captions have.
pub open spec fn unmarked(text: Seq<char>) -> bool {
    forall|i: int|
        0 <= i < text.len() ==> (#[trigger] text[i] == 'q' ==> !(i + 5 < text.len() && text[i + 5]
            == 's')) && (text[i] == 'w' ==> !(i + 1 < text.len() && text[i + 1] == 'o'))
}

/// The captions are phrases of words, longer than any entity and than the
/// name of any magnitude.
pub proof fn lemma_stats_phrase_words(phrase: Seq<char>)
    requires
        stats_phrase(phrase),
    ensures
        word_phrase(phrase),
        phrase.len() >= 15,
{
    reveal_strlit("requests served");
    reveal_strlit("worth of polyfills served");
}

/// An unmarked text is free of both captions.
pub proof fn lemma_unmarked_free(text: Seq<char>, phrase: Seq<char>)
    requires
        unmarked(text),
        stats_phrase(phrase),
    ensures
        free_of(text, phrase),
{
    reveal_strlit("requests served");
    reveal_strlit("worth of polyfills served");
    if phrase == REQUESTS_PHRASE@ {
        lemma_free_by_marks(text, phrase, 2, 7);
    } else {
        lemma_free_by_marks(text, phrase, 0, 1);
    }
}

/// What a text holds at a place it still holds there when more follows.
pub proof fn lemma_occurs_kept(text: Seq<char>, more: Seq<char>, piece: Seq<char>, at: int)
    requires
        occurs_at(text, piece, at),
    ensures
        occurs_at(text + more, piece, at),
{
    assert((text + more).subrange(at, at + piece.len()) =~= text.subrange(at, at + piece.len()));
}

/// What a text holds at a place it holds further on, by the length of what
/// is put before it.
pub proof fn lemma_occurs_shifted(before: Seq<char>, text: Seq<char>, piece: Seq<char>, at: int)
    requires
        occurs_at(text, piece, at),
    ensures
        occurs_at(before + text, piece, before.len() + at),
{
    assert((before + text).subrange(before.len() + at, before.len() + at + piece.len())
        =~= text.subrange(at, at + piece.len()));
}

/// The text holds the phrase at one place only, and there the whole line
/// stands that the phrase begins.
pub open spec fn captioned_once(text: Seq<char>, phrase: Seq<char>, line: Seq<char>) -> bool {
    exists|at: int| #[trigger] occurs_at(text, line, at) && occurs_only_at(text, phrase, at)
}

/// A text that holds a caption once keeps it, with its line, when a parted
/// text free of the phrase follows.
pub proof fn lemma_captioned_then_free(
    left: Seq<char>,
    right: Seq<char>,
    phrase: Seq<char>,
    line: Seq<char>,
)
    requires
        word_phrase(phrase),
        parted(left, right),
        captioned_once(left, phrase, line),
        free_of(right, phrase),
    ensures
        captioned_once(left + right, phrase, line),
{
    let at = choose|at: int| #[trigger] occurs_at(left, line, at) && occurs_only_at(left, phrase, at);
    lemma_once_then_free(left, right, phrase, at);
    lemma_occurs_kept(left, right, line, at);
}

/// A text that holds a caption once keeps it, with its line, when it
/// follows a parted text free of the phrase.
pub proof fn lemma_free_then_captioned(
    left: Seq<char>,
    right: Seq<char>,
    phrase: Seq<char>,
    line: Seq<char>,
)
    requires
        word_phrase(phrase),
        parted(left, right),
        free_of(left, phrase),
        captioned_once(right, phrase, line),
    ensures
        captioned_once(left + right, phrase, line),
{
    let at = choose|at: int| #[trigger]
        occurs_at(right, line, at) && occurs_only_at(right, phrase, at);
    lemma_free_then_once(left, right, phrase, at);
    lemma_occurs_shifted(left, right, line, at);
}

} // verus!
