use lalrpop::actions::{__action10, __action9};
use lalrpop::intern_token::{__tokenize, scan, __Matcher};
use lalrpop::parse_error::ParseError;
use lalrpop::text::{has_class, len_in_bytes, width_of, CharClass};
use lalrpop::word::is_word;

#[test]
fn marks_are_one_character_each() {
    assert_eq!(__tokenize("&"), Some((0, 1)));
    assert_eq!(__tokenize("("), Some((1, 1)));
    assert_eq!(__tokenize(")"), Some((2, 1)));
    assert_eq!(__tokenize("*"), Some((3, 1)));
    assert_eq!(__tokenize("["), Some((4, 1)));
    assert_eq!(__tokenize("]"), Some((5, 1)));
    assert_eq!(__tokenize("&&"), Some((0, 1)));
    assert_eq!(__tokenize("(abc"), Some((1, 1)));
    assert_eq!(__tokenize("*é"), Some((3, 1)));
}

#[test]
fn words_run_as_far_as_word_characters_go() {
    assert_eq!(__tokenize("abc"), Some((6, 3)));
    assert_eq!(__tokenize("abc def"), Some((6, 3)));
    assert_eq!(__tokenize("a_1)"), Some((6, 3)));
    assert_eq!(__tokenize("_"), Some((6, 1)));
    assert_eq!(__tokenize("9"), Some((6, 1)));
    assert_eq!(__tokenize("x&y"), Some((6, 1)));
}

#[test]
fn word_length_is_counted_in_bytes() {
    assert_eq!(__tokenize("é"), Some((6, 2)));
    assert_eq!(__tokenize("aé*"), Some((6, 3)));
    assert_eq!(__tokenize("日本語 x"), Some((6, 9)));
    assert_eq!(__tokenize("\u{20000}a"), Some((6, 5)));
    assert_eq!(__tokenize("aµ\u{0903}\u{20000}-"), Some((6, 10)));
}

#[test]
fn no_token_at_other_characters_or_at_the_end() {
    assert_eq!(__tokenize(""), None);
    assert_eq!(__tokenize(" a"), None);
    assert_eq!(__tokenize("+"), None);
    assert_eq!(__tokenize("-a"), None);
    assert_eq!(__tokenize("\u{d7}"), None);
    assert_eq!(__tokenize("{"), None);
}

#[test]
fn word_characters_by_range() {
    for c in ['0', '9', 'A', 'Z', '_', 'a', 'z', '\u{aa}', '\u{b5}', '\u{ba}', '\u{c0}', '\u{d6}', '\u{d8}', '\u{2c1}', '\u{37f}', '\u{20000}', '\u{2a6d6}', '\u{e0100}', '\u{e01ef}'] {
        assert!(is_word(c), "{:?}", c);
    }
    for c in ['/', ':', '@', '[', '`', '{', '\u{a9}', '\u{ab}', '\u{d7}', '\u{f7}', '\u{2c2}', '\u{37e}', '\u{1ffff}', '\u{2a6d7}', '\u{e00ff}', '\u{e01f0}', '\u{10ffff}', ' ', '\n'] {
        assert!(!is_word(c), "{:?}", c);
    }
}

#[test]
fn widths_follow_utf8() {
    for c in ['\0', 'a', '\u{7f}', '\u{80}', 'é', '\u{7ff}', '\u{800}', '日', '\u{ffff}', '\u{10000}', '\u{10ffff}'] {
        assert_eq!(width_of(c), c.len_utf8(), "{:?}", c);
    }
    assert_eq!(width_of('\u{7f}'), 1);
    assert_eq!(width_of('\u{80}'), 2);
    assert_eq!(width_of('\u{7ff}'), 2);
    assert_eq!(width_of('\u{800}'), 3);
    assert_eq!(width_of('\u{ffff}'), 3);
    assert_eq!(width_of('\u{10000}'), 4);
    assert_eq!(len_in_bytes("aé日\u{20000}"), 10);
    assert_eq!(len_in_bytes(""), 0);
}

#[test]
fn scan_counts_characters_and_bytes() {
    assert_eq!(scan(CharClass::Whitespace, "  \t\nab "), (4, 4));
    assert_eq!(scan(CharClass::Whitespace, "\u{a0}\u{3000}x"), (2, 5));
    assert_eq!(scan(CharClass::Whitespace, "x  "), (0, 0));
    assert_eq!(scan(CharClass::Whitespace, ""), (0, 0));
    assert_eq!(scan(CharClass::Whitespace, "   "), (3, 3));
    assert_eq!(scan(CharClass::Word, "aé日 "), (3, 6));
    assert_eq!(scan(CharClass::Word, " a"), (0, 0));
    assert!(has_class(CharClass::Whitespace, ' '));
    assert!(has_class(CharClass::Whitespace, '\u{2028}'));
    assert!(!has_class(CharClass::Whitespace, 'a'));
    assert!(has_class(CharClass::Word, 'a'));
    assert!(!has_class(CharClass::Word, ' '));
}

#[test]
fn matcher_starts_at_the_start() {
    let matcher = __Matcher::new("ab cd");
    assert_eq!(matcher.text(), "ab cd");
    assert_eq!(matcher.offset(), 0);
}

#[test]
fn matcher_hands_out_tokens_with_offsets() {
    let mut matcher = __Matcher::new("  foo(&bar) *[é]\n");
    let mut tokens = vec![];
    while let Some(token) = matcher.next() {
        tokens.push(token.unwrap());
    }
    assert_eq!(
        tokens,
        vec![
            (2, (6, "foo"), 5),
            (5, (1, "("), 6),
            (6, (0, "&"), 7),
            (7, (6, "bar"), 10),
            (10, (2, ")"), 11),
            (12, (3, "*"), 13),
            (13, (4, "["), 14),
            (14, (6, "é"), 16),
            (16, (5, "]"), 17),
        ]
    );
    assert_eq!(matcher.text(), "");
    assert_eq!(matcher.offset(), 18);
    assert_eq!(matcher.next(), None);
    assert_eq!(matcher.offset(), 18);
}

#[test]
fn matcher_at_the_end_of_the_text() {
    let mut matcher = __Matcher::new("");
    assert_eq!(matcher.next(), None);
    assert_eq!(matcher.offset(), 0);
    let mut spaces = __Matcher::new(" \u{a0} ");
    assert_eq!(spaces.next(), None);
    assert_eq!(spaces.offset(), 4);
    assert_eq!(spaces.text(), "");
}

#[test]
fn matcher_stays_at_what_is_no_token() {
    let mut matcher = __Matcher::new("a  + b");
    assert_eq!(matcher.next(), Some(Ok((0, (6, "a"), 1))));
    assert_eq!(matcher.text(), "  + b");
    assert_eq!(matcher.next(), Some(Err(ParseError::InvalidToken { location: 3 })));
    assert_eq!(matcher.text(), "  + b");
    assert_eq!(matcher.offset(), 1);
    assert_eq!(matcher.next(), Some(Err(ParseError::InvalidToken { location: 3 })));
}

#[test]
fn place_marks_take_the_offset_on_their_side() {
    assert_eq!(__action9("a b", &1, &2), 1);
    assert_eq!(__action10("a b", &1, &2), 2);
    assert_eq!(__action9("", &0, &0), 0);
    assert_eq!(__action10("", &7, &7), 7);
    assert_eq!(__action9("x", &usize::MAX, &0), usize::MAX);
    assert_eq!(__action10("x", &usize::MAX, &0), 0);
}
