//! Text as characters and as UTF-8 bytes: how long a run of characters is
//! in bytes, and where a string can be cut.

use vstd::prelude::*;
use vstd::utf8::{
    encode_scalar,
    encode_utf8,
    encode_utf8_decode_utf8,
    encode_utf8_first_scalar,
    is_char_boundary,
    length_of_first_scalar,
    pop_first_scalar,
};
use vstd::string::StringSliceAdditionalSpecFns;
use crate::word::{is_word, is_word_char};

verus! {

/// Whether `char::is_whitespace` holds of the character.
pub uninterp spec fn is_whitespace(c: char) -> bool;

/// `char::is_whitespace`: whether the character has the Unicode property
/// White_Space.
#[verifier::external_body]
pub(crate) fn whitespace(c: char) -> (r: bool)
    ensures
        r == is_whitespace(c),
{
    c.is_whitespace()
}

/// A kind of character that a scan runs over.
#[derive(Clone, Copy, Debug, PartialEq, Eq, Structural)]
pub enum CharClass {
    Whitespace,
    Word,
}

/// Whether `c` is of the class.
pub open spec fn in_class(class: CharClass, c: char) -> bool {
    match class {
        CharClass::Whitespace => is_whitespace(c),
        CharClass::Word => is_word_char(c),
    }
}

/// The number of characters at the start of `text` that are of the class.
pub open spec fn run_len(class: CharClass, text: Seq<char>) -> nat
    decreases text.len(),
{
    if text.len() == 0 || !in_class(class, text[0]) {
        0
    } else {
        1 + run_len(class, text.drop_first())
    }
}

/// The number of bytes that the characters take in UTF-8.
pub open spec fn byte_len(text: Seq<char>) -> nat {
    encode_utf8(text).len()
}

/// The number of bytes that one character takes in UTF-8.
pub open spec fn char_width(c: char) -> nat {
    encode_scalar(c as u32).len()
}

/// A run ends at the first character that is not of the class, or at the
/// end of the text.
pub proof fn lemma_run_len(class: CharClass, text: Seq<char>, n: int)
    requires
        0 <= n <= text.len(),
        forall|i: int| 0 <= i < n ==> in_class(class, #[trigger] text[i]),
        n == text.len() || !in_class(class, text[n]),
    ensures
        run_len(class, text) == n,
    decreases n,
{
    if n > 0 {
        let rest = text.drop_first();
        assert forall|i: int| 0 <= i < n - 1 implies in_class(class, #[trigger] rest[i]) by {
            assert(rest[i] == text[i + 1]);
        }
        if n < text.len() {
            assert(rest[n - 1] == text[n]);
        }
        lemma_run_len(class, rest, n - 1);
    }
}

/// A run is no longer than the text, and all its characters are of the
/// class.
pub proof fn lemma_run_len_bound(class: CharClass, text: Seq<char>)
    ensures
        run_len(class, text) <= text.len(),
        forall|i: int| 0 <= i < run_len(class, text) ==> in_class(class, #[trigger] text[i]),
        run_len(class, text) < text.len() ==> !in_class(class, text[run_len(class, text) as int]),
    decreases text.len(),
{
    if text.len() > 0 && in_class(class, text[0]) {
        let rest = text.drop_first();
        lemma_run_len_bound(class, rest);
        assert forall|i: int| 0 <= i < run_len(class, text) implies in_class(
            class,
            #[trigger] text[i],
        ) by {
            if i > 0 {
                assert(text[i] == rest[i - 1]);
            }
        }
        if run_len(class, text) < text.len() {
            assert(text[run_len(class, text) as int] == rest[run_len(class, rest) as int]);
        }
    }
}

/// The bytes of two texts, one after the other, are the bytes of the one
/// followed by the bytes of the other.
pub proof fn lemma_encode_concat(a: Seq<char>, b: Seq<char>)
    ensures
        encode_utf8(a + b) == encode_utf8(a) + encode_utf8(b),
        byte_len(a + b) == byte_len(a) + byte_len(b),
    decreases a.len(),
{
    if a.len() == 0 {
        assert(a + b =~= b);
        assert(encode_utf8(a) + encode_utf8(b) =~= encode_utf8(b));
    } else {
        lemma_encode_concat(a.drop_first(), b);
        assert((a + b).drop_first() =~= a.drop_first() + b);
        assert((a + b)[0] == a[0]);
        assert(encode_utf8(a + b) =~= encode_utf8(a) + encode_utf8(b));
    }
}

/// One more character adds its width to the bytes.
pub proof fn lemma_byte_len_push(text: Seq<char>, c: char)
    ensures
        byte_len(text.push(c)) == byte_len(text) + char_width(c),
        1 <= char_width(c) <= 4,
{
    lemma_encode_concat(text, seq![c]);
    assert(text.push(c) =~= text + seq![c]);
    assert(seq![c].drop_first() =~= Seq::<char>::empty());
    assert(encode_utf8(seq![c]) =~= encode_scalar(c as u32)) by {
        reveal_with_fuel(encode_utf8, 2);
    }
}

/// The bytes of the first characters of a text are no more than those of
/// the whole text.
pub proof fn lemma_byte_len_take(text: Seq<char>, n: int)
    requires
        0 <= n <= text.len(),
    ensures
        byte_len(text.take(n)) + byte_len(text.skip(n)) == byte_len(text),
        encode_utf8(text) == encode_utf8(text.take(n)) + encode_utf8(text.skip(n)),
{
    lemma_encode_concat(text.take(n), text.skip(n));
    assert(text.take(n) + text.skip(n) =~= text);
}

/// The place where one text ends and the next begins is a boundary between
/// characters.
pub proof fn lemma_boundary(a: Seq<char>, b: Seq<char>)
    ensures
        is_char_boundary(encode_utf8(a + b), byte_len(a) as int),
    decreases a.len(),
{
    broadcast use vstd::utf8::encode_utf8_valid_utf8;

    if a.len() > 0 {
        let whole = a + b;
        let bytes = encode_utf8(whole);
        lemma_encode_concat(a, b);
        lemma_boundary(a.drop_first(), b);
        encode_utf8_first_scalar(whole);
        assert(whole.drop_first() =~= a.drop_first() + b);
        assert(whole[0] == a[0]);
        assert(pop_first_scalar(bytes) =~= encode_utf8(whole.drop_first()));
        assert(length_of_first_scalar(bytes) == encode_scalar(a[0] as u32).len());
        assert(byte_len(a) == encode_scalar(a[0] as u32).len() + byte_len(a.drop_first()));
        assert(encode_scalar(a[0] as u32).len() >= 1);
    }
}

/// The number of bytes that `c` takes in UTF-8.
pub fn width_of(c: char) -> (r: usize)
    ensures
        r == char_width(c),
        1 <= r <= 4,
{
    let code = c as u32;
    if code <= 0x7F {
        1
    } else if code <= 0x7FF {
        2
    } else if code <= 0xFFFF {
        3
    } else {
        4
    }
}

/// Whether `c` is of the class.
pub fn has_class(class: CharClass, c: char) -> (r: bool)
    ensures
        r == in_class(class, c),
{
    match class {
        CharClass::Whitespace => whitespace(c),
        CharClass::Word => is_word(c),
    }
}

/// The number of bytes of `text`.
pub fn len_in_bytes(text: &str) -> (r: usize)
    ensures
        r == byte_len(text@),
{
    text.as_bytes().len()
}

/// Cuts `text` behind its first `chars` characters, which take `bytes`
/// bytes.
pub(crate) fn cut<'a>(text: &'a str, bytes: usize, Ghost(chars): Ghost<int>) -> (r: (
    &'a str,
    &'a str,
))
    requires
        0 <= chars <= text@.len(),
        bytes == byte_len(text@.take(chars)),
    ensures
        r.0@ == text@.take(chars),
        r.1@ == text@.skip(chars),
{
    proof {
        lemma_boundary(text@.take(chars), text@.skip(chars));
        assert(text@.take(chars) + text@.skip(chars) =~= text@);
        lemma_byte_len_take(text@, chars);
    }
    let r = text.split_at(bytes);
    proof {
        let all = encode_utf8(text@);
        let head = encode_utf8(text@.take(chars));
        let tail = encode_utf8(text@.skip(chars));
        assert(all.subrange(0, bytes as int) =~= head);
        assert(all.subrange(bytes as int, all.len() as int) =~= tail);
        assert(encode_utf8(r.0@) == head);
        assert(encode_utf8(r.1@) == tail);
        lemma_encode_injective(r.0@, text@.take(chars));
        lemma_encode_injective(r.1@, text@.skip(chars));
    }
    r
}

/// Texts with the same bytes are the same.
pub proof fn lemma_encode_injective(a: Seq<char>, b: Seq<char>)
    requires
        encode_utf8(a) == encode_utf8(b),
    ensures
        a == b,
{
    encode_utf8_decode_utf8(a);
    encode_utf8_decode_utf8(b);
}

} // verus!
