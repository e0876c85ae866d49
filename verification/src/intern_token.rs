//! The tokens of a small language of expressions: the marks `&`, `(`, `)`,
//! `*`, `[` and `]`, and words. White space separates tokens.

use vstd::prelude::*;
use vstd::std_specs::iter::IteratorSpec;
use crate::parse_error::ParseError;
use crate::text::{
    byte_len,
    cut,
    has_class,
    in_class,
    lemma_byte_len_push,
    lemma_byte_len_take,
    lemma_run_len,
    lemma_run_len_bound,
    len_in_bytes,
    run_len,
    width_of,
    CharClass,
};
use crate::word::{is_word, is_word_char};

verus! {

/// The number of the token that the mark `c` is; `None` where `c` is no
/// mark.
pub open spec fn mark(c: char) -> Option<usize> {
    if c == '&' {
        Some(0usize)
    } else if c == '(' {
        Some(1usize)
    } else if c == ')' {
        Some(2usize)
    } else if c == '*' {
        Some(3usize)
    } else if c == '[' {
        Some(4usize)
    } else if c == ']' {
        Some(5usize)
    } else {
        None
    }
}

/// The number of the token that is a word.
pub open spec fn word_token() -> usize {
    6
}

/// The token at the start of `text`, as its number and the number of
/// characters it takes: a mark is one character, a word runs as far as word
/// characters go. `None` where `text` is empty or starts with a character
/// that belongs to no token.
pub open spec fn token_at(text: Seq<char>) -> Option<(usize, nat)> {
    if text.len() == 0 {
        None
    } else if mark(text[0]) is Some {
        Some((mark(text[0])->0, 1nat))
    } else if is_word_char(text[0]) {
        Some((word_token(), run_len(CharClass::Word, text)))
    } else {
        None
    }
}

/// The number of the token at the start of `text`.
pub open spec fn token_number(text: Seq<char>) -> usize {
    match token_at(text) {
        Some((index, _)) => index,
        None => 0,
    }
}

/// The number of characters of the token at the start of `text`.
pub open spec fn token_len(text: Seq<char>) -> nat {
    match token_at(text) {
        Some((_, chars)) => chars,
        None => 0,
    }
}

/// The number of characters at the start of `text` that are of the class,
/// and the number of bytes they take.
pub fn scan(class: CharClass, text: &str) -> (r: (usize, usize))
    ensures
        r.0 == run_len(class, text@),
        r.1 == byte_len(text@.take(r.0 as int)),
        r.0 <= text@.len(),
{
    broadcast use vstd::string::group_string_axioms;

    let total = len_in_bytes(text);
    let mut rest = text.chars();
    let mut chars: usize = 0;
    let mut bytes: usize = 0;
    proof {
        assert(text@.skip(0) =~= text@);
        assert(text@.take(0) =~= Seq::<char>::empty());
        lemma_byte_len_take(text@, 0);
    }
    loop
        invariant_except_break
            rest.remaining() == text@.skip(chars as int),
        invariant
            chars <= text@.len(),
            chars <= bytes,
            bytes == byte_len(text@.take(chars as int)),
            total == byte_len(text@),
            forall|i: int| 0 <= i < chars ==> in_class(class, #[trigger] text@[i]),
        ensures
            chars <= text@.len(),
            chars == run_len(class, text@),
            bytes == byte_len(text@.take(chars as int)),
        decreases text@.len() - chars,
    {
        let ghost before = rest.remaining();
        match rest.next() {
            None => {
                proof {
                    assert(before.len() == 0);
                    lemma_run_len(class, text@, chars as int);
                }
                break ;
            },
            Some(c) => {
                proof {
                    assert(before.len() > 0);
                    assert(c == text@[chars as int]);
                }
                if !has_class(class, c) {
                    proof {
                        lemma_run_len(class, text@, chars as int);
                    }
                    break ;
                }
                let width = width_of(c);
                proof {
                    assert(text@.take(chars + 1) =~= text@.take(chars as int).push(c));
                    lemma_byte_len_push(text@.take(chars as int), c);
                    lemma_byte_len_take(text@, chars + 1);
                    assert(text@.skip(chars as int).drop_first() =~= text@.skip(chars + 1));
                }
                chars += 1;
                bytes += width;
            },
        }
    }
    (chars, bytes)
}

/// The token at the start of `text`, as its number and the number of bytes
/// it takes. `None` where `text` is empty or starts with a character that
/// belongs to no token.
pub fn __tokenize(text: &str) -> (r: Option<(usize, usize)>)
    ensures
        r == match token_at(text@) {
            Some((index, chars)) => Some((index, byte_len(text@.take(chars as int)) as usize)),
            None => None,
        },
{
    broadcast use vstd::string::group_string_axioms;

    let mut chars = text.chars();
    let first = match chars.next() {
        Some(c) => c,
        None => {
            return None;
        },
    };
    assert(first == text@[0]);
    proof {
        assert(text@.take(1) =~= Seq::<char>::empty().push(first));
        assert(Seq::<char>::empty().push(first).take(0) =~= Seq::<char>::empty());
        lemma_byte_len_push(Seq::<char>::empty(), first);
        lemma_byte_len_take(Seq::<char>::empty().push(first), 0);
    }
    if first == '&' {
        Some((0, 1))
    } else if first == '(' {
        Some((1, 1))
    } else if first == ')' {
        Some((2, 1))
    } else if first == '*' {
        Some((3, 1))
    } else if first == '[' {
        Some((4, 1))
    } else if first == ']' {
        Some((5, 1))
    } else if is_word(first) {
        let (_, bytes) = scan(CharClass::Word, text);
        Some((6, bytes))
    } else {
        None
    }
}

/// Hands out the tokens of a text one after another, each with the byte
/// offsets at which it starts and ends.
#[derive(Debug, PartialEq, Eq)]
pub struct __Matcher<'input> {
    text: &'input str,
    consumed: usize,
}

impl<'input> __Matcher<'input> {
    #[verifier::type_invariant]
    spec fn offsets_fit(self) -> bool {
        self.consumed + byte_len(self.text@) <= usize::MAX
    }

    /// The text that is still to be read.
    pub closed spec fn remaining(&self) -> Seq<char> {
        self.text@
    }

    /// The number of bytes that have been read.
    pub closed spec fn consumed(&self) -> nat {
        self.consumed as nat
    }

    /// A matcher at the start of `s`.
    pub fn new(s: &'input str) -> (r: __Matcher<'input>)
        ensures
            r.remaining() == s@,
            r.consumed() == 0,
    {
        let _ = len_in_bytes(s);
        __Matcher { text: s, consumed: 0 }
    }

    /// The text that is still to be read.
    pub fn text(&self) -> (r: &'input str)
        ensures
            r@ == self.remaining(),
    {
        self.text
    }

    /// The number of bytes that have been read.
    pub fn offset(&self) -> (r: usize)
        ensures
            r == self.consumed(),
    {
        self.consumed
    }

    /// The next token. White space before it is passed over. At the end of
    /// the text there is none. A token comes with its number, its text, and
    /// the byte offsets of its start and its end, and the matcher moves
    /// behind it. Where the text goes on with what is no token, the error
    /// names the offset, and the matcher stays where it is.
    pub fn next(&mut self) -> (r: Option<
        Result<(usize, (usize, &'input str), usize), ParseError<usize, (usize, &'input str), ()>>,
    >)
        ensures
            ({
                let spaces = run_len(CharClass::Whitespace, old(self).remaining()) as int;
                let rest = old(self).remaining().skip(spaces);
                let start = old(self).consumed() + byte_len(old(self).remaining().take(spaces));
                match r {
                    None => {
                        &&& rest.len() == 0
                        &&& final(self).remaining() == rest
                        &&& final(self).consumed() == start
                    },
                    Some(Ok((lo, (index, word), hi))) => {
                        &&& token_at(rest) is Some
                        &&& index == token_number(rest)
                        &&& word@ == rest.take(token_len(rest) as int)
                        &&& lo == start
                        &&& hi == start + byte_len(word@)
                        &&& final(self).remaining() == rest.skip(token_len(rest) as int)
                        &&& final(self).consumed() == hi
                    },
                    Some(Err(error)) => {
                        &&& rest.len() > 0
                        &&& token_at(rest) is None
                        &&& error matches ParseError::InvalidToken { location }
                        &&& location == start
                        &&& final(self).remaining() == old(self).remaining()
                        &&& final(self).consumed() == old(self).consumed()
                    },
                }
            }),
    {
        proof {
            use_type_invariant(&*self);
        }
        let (spaces, space_bytes) = scan(CharClass::Whitespace, self.text);
        let (_, text) = cut(self.text, space_bytes, Ghost(spaces as int));
        proof {
            lemma_byte_len_take(self.text@, spaces as int);
        }
        let start_offset = self.consumed + space_bytes;
        if text.is_empty() {
            self.text = text;
            self.consumed = start_offset;
            None
        } else {
            match __tokenize(text) {
                Some((index, length)) => {
                    let ghost chars = token_len(text@) as int;
                    proof {
                        lemma_run_len_bound(CharClass::Word, text@);
                        lemma_byte_len_take(text@, chars);
                    }
                    let (result, remaining) = cut(text, length, Ghost(chars));
                    let end_offset = start_offset + length;
                    self.text = remaining;
                    self.consumed = end_offset;
                    Some(Ok((start_offset, (index, result), end_offset)))
                },
                None => Some(Err(ParseError::InvalidToken { location: start_offset })),
            }
        }
    }
}

} // verus!
