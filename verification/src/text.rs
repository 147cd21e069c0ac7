//! Text: decoding captured bytes, decimal notation, and the tail of a text.

use vstd::prelude::*;
use vstd::string::*;
use vstd::utf8::*;

verus! {

/// The text that `bytes` hold: their decoding as UTF-8, with U+FFFD REPLACEMENT
/// CHARACTER in place of whatever is not UTF-8.
pub uninterp spec fn utf8_lossy(bytes: Seq<u8>) -> Seq<char>;

/// Whether, if `bytes` are UTF-8, the text that they hold is the text that
/// they encode.
pub open spec fn faithful_where_utf8(bytes: Seq<u8>) -> bool {
    valid_utf8(bytes) ==> utf8_lossy(bytes) == decode_utf8(bytes)
}

/// `String::from_utf8_lossy`: the same bytes always decode to the same text,
/// and bytes that are UTF-8 decode to the text that they encode. Nothing here
/// proves that they do.
#[verifier::external_body]
pub(crate) fn decode_lossy(bytes: &[u8]) -> (text: String)
    ensures
        text@ == utf8_lossy(bytes@),
        valid_utf8(bytes@) ==> text@ == decode_utf8(bytes@),
{
    String::from_utf8_lossy(bytes).into_owned()
}

/// The character that writes the decimal digit `d`.
pub open spec fn digit(d: int) -> char {
    if d == 0 {
        '0'
    } else if d == 1 {
        '1'
    } else if d == 2 {
        '2'
    } else if d == 3 {
        '3'
    } else if d == 4 {
        '4'
    } else if d == 5 {
        '5'
    } else if d == 6 {
        '6'
    } else if d == 7 {
        '7'
    } else if d == 8 {
        '8'
    } else {
        '9'
    }
}

/// Decimal notation of a natural number, without leading zeros.
pub open spec fn decimal_nat(n: nat) -> Seq<char>
    decreases n,
{
    if n < 10 {
        seq![digit(n as int)]
    } else {
        decimal_nat(n / 10).push(digit((n % 10) as int))
    }
}

/// Decimal notation of an integer: a minus sign for negative numbers, never
/// a plus sign.
pub open spec fn decimal(n: int) -> Seq<char> {
    if n < 0 {
        seq!['-'] + decimal_nat((-n) as nat)
    } else {
        decimal_nat(n as nat)
    }
}

/// The last `count` characters of `text`, or all of it where it has fewer.
pub open spec fn last_chars(text: Seq<char>, count: nat) -> Seq<char> {
    if text.len() <= count {
        text
    } else {
        text.subrange(text.len() - count, text.len() as int)
    }
}

/// Whether `text` ends with `suffix`.
pub open spec fn ends_with(text: Seq<char>, suffix: Seq<char>) -> bool {
    suffix.len() <= text.len() && text.subrange(text.len() - suffix.len(), text.len() as int)
        == suffix
}

/// Whether `text` begins with `prefix`.
pub open spec fn starts_with(text: Seq<char>, prefix: Seq<char>) -> bool {
    prefix.len() <= text.len() && text.subrange(0, prefix.len() as int) == prefix
}

/// Whether `part` stands in `text` from position `at` on.
pub open spec fn occurs_at(text: Seq<char>, part: Seq<char>, at: int) -> bool {
    0 <= at && at + part.len() <= text.len() && text.subrange(at, at + part.len()) == part
}

/// How often the character `c` occurs in `text`.
pub open spec fn occurrences(text: Seq<char>, c: char) -> nat
    decreases text.len(),
{
    if text.len() == 0 {
        0
    } else if text.last() == c {
        occurrences(text.drop_last(), c) + 1
    } else {
        occurrences(text.drop_last(), c)
    }
}

/// The decimal digit `d` as a text of one character.
fn digit_text(d: u64) -> (r: &'static str)
    requires
        d < 10,
    ensures
        r@ == seq![digit(d as int)],
{
    proof {
        reveal_strlit("0");
        reveal_strlit("1");
        reveal_strlit("2");
        reveal_strlit("3");
        reveal_strlit("4");
        reveal_strlit("5");
        reveal_strlit("6");
        reveal_strlit("7");
        reveal_strlit("8");
        reveal_strlit("9");
    }
    if d == 0 {
        "0"
    } else if d == 1 {
        "1"
    } else if d == 2 {
        "2"
    } else if d == 3 {
        "3"
    } else if d == 4 {
        "4"
    } else if d == 5 {
        "5"
    } else if d == 6 {
        "6"
    } else if d == 7 {
        "7"
    } else if d == 8 {
        "8"
    } else {
        "9"
    }
}

/// Appends the decimal notation of `n` to `out`.
fn append_decimal_nat(out: &mut String, n: u64)
    ensures
        final(out)@ == old(out)@ + decimal_nat(n as nat),
    decreases n,
{
    if n >= 10 {
        append_decimal_nat(out, n / 10);
    }
    out.append(digit_text(n % 10));
}

/// Appends the decimal notation of `n` to `out`.
pub fn append_decimal(out: &mut String, n: i32)
    ensures
        final(out)@ == old(out)@ + decimal(n as int),
{
    if n < 0 {
        out.append("-");
        proof {
            reveal_strlit("-");
        }
        let magnitude: i64 = -(n as i64);
        append_decimal_nat(out, magnitude as u64);
    } else {
        append_decimal_nat(out, n as u64);
    }
}

/// The last `count` characters of `text`; the cut never falls inside a
/// character.
pub fn tail(text: &str, count: usize) -> (r: &str)
    ensures
        r@ == last_chars(text@, count as nat),
{
    let n: usize = text.unicode_len();
    if n <= count {
        text
    } else {
        text.substring_char(n - count, n)
    }
}

/// The UTF-8 encoding of a text is the encoding of its first part followed
/// by the encoding of the rest, wherever the text is parted.
pub proof fn lemma_encode_utf8_concat(first: Seq<char>, rest: Seq<char>)
    ensures
        encode_utf8(first + rest) == encode_utf8(first) + encode_utf8(rest),
    decreases first.len(),
{
    if first.len() == 0 {
        assert(first + rest == rest);
    } else {
        let whole = first + rest;
        assert(whole[0] == first[0]);
        assert(whole.drop_first() == first.drop_first() + rest);
        lemma_encode_utf8_concat(first.drop_first(), rest);
    }
}

/// A text has at most as many characters as its UTF-8 encoding has bytes.
pub proof fn lemma_chars_within_bytes(text: Seq<char>)
    ensures
        text.len() <= encode_utf8(text).len(),
    decreases text.len(),
{
    if text.len() > 0 {
        lemma_chars_within_bytes(text.drop_first());
    }
}

/// The last characters of a text are a part of it that ends where it ends:
/// the text is what was cut off followed by what was kept, and so is its
/// UTF-8 encoding, so that the cut falls between two characters.
pub proof fn lemma_last_chars(text: Seq<char>, count: nat)
    ensures
        ({
            let kept = last_chars(text, count);
            let dropped = text.subrange(0, text.len() - kept.len());
            &&& kept.len() <= count
            &&& kept.len() <= text.len()
            &&& text.len() <= count ==> kept == text
            &&& text.len() >= count ==> kept.len() == count
            &&& ends_with(text, kept)
            &&& text == dropped + kept
            &&& encode_utf8(text) == encode_utf8(dropped) + encode_utf8(kept)
        }),
{
    let kept = last_chars(text, count);
    let dropped = text.subrange(0, text.len() - kept.len());
    assert(text == dropped + kept);
    assert(text.subrange(text.len() - kept.len(), text.len() as int) == kept);
    lemma_encode_utf8_concat(dropped, kept);
}

/// A character occurs in a text as often as in its first part and in the rest
/// together.
pub proof fn lemma_occurrences_concat(first: Seq<char>, rest: Seq<char>, c: char)
    ensures
        occurrences(first + rest, c) == occurrences(first, c) + occurrences(rest, c),
    decreases rest.len(),
{
    if rest.len() == 0 {
        assert(first + rest == first);
    } else {
        let whole = first + rest;
        assert(whole.last() == rest.last());
        assert(whole.drop_last() == first + rest.drop_last());
        lemma_occurrences_concat(first, rest.drop_last(), c);
    }
}

/// A character that a text does not hold occurs in it zero times.
pub proof fn lemma_occurrences_absent(text: Seq<char>, c: char)
    requires
        !text.contains(c),
    ensures
        occurrences(text, c) == 0,
    decreases text.len(),
{
    if text.len() > 0 {
        assert(text.last() == text[text.len() - 1]);
        assert forall|i: int| 0 <= i < text.drop_last().len() implies text.drop_last()[i] != c by {
            assert(text.drop_last()[i] == text[i]);
        }
        lemma_occurrences_absent(text.drop_last(), c);
    }
}

} // verus!
