use hoare_logic::text::{concat3, concat4, concat5, is_whitespace_char, spaced2, spaced3, tokenize};
use hoare_logic::{ParseError, Parser};

#[test]
fn whitespace_is_what_the_standard_library_calls_whitespace() {
    for code in 0..=0x10FFFF_u32 {
        if let Some(c) = char::from_u32(code) {
            assert_eq!(is_whitespace_char(c), c.is_whitespace(), "U+{:04X}", code);
        }
    }
}

#[test]
fn tokenize_splits_as_the_standard_library_does() {
    let texts = [
        "",
        " ",
        "a",
        " a",
        "a ",
        "  a  b  ",
        "∧ ∀ x → P(x) ∧ Q(x) ∃ y ∨ R(y) S(y) = ¬ T(x) < U V",
        "\ta\nb\r\nc\u{000B}d\u{000C}e",
        "a\u{0085}b\u{00A0}c\u{1680}d\u{2000}e\u{200A}f\u{2028}g\u{2029}h\u{202F}i\u{205F}j\u{3000}k",
        "a\u{200B}b\u{FEFF}c\u{180E}d",
        "x≔x+1 ;  y≔2",
    ];
    for text in texts {
        let expected: Vec<String> = text.split_whitespace().map(String::from).collect();
        assert_eq!(tokenize(text), expected, "{:?}", text);
    }
}

#[test]
fn tokenize_gives_exact_words() {
    assert_eq!(tokenize("  ∧  A\tB "), vec!["∧".to_string(), "A".to_string(), "B".to_string()]);
    assert_eq!(tokenize("   "), Vec::<String>::new());
    assert_eq!(tokenize(&"A".repeat(1000)), vec!["A".repeat(1000)]);
}

#[test]
fn texts_are_joined_in_order() {
    assert_eq!(concat3("a", "bc", "d"), "abcd");
    assert_eq!(concat4("a", "", "b", "c"), "abc");
    assert_eq!(concat5("∧", " ", "A", " ", "B"), "∧ A B");
    assert_eq!(spaced2("¬", "A"), "¬ A");
    assert_eq!(spaced3("∧", "A", "B"), "∧ A B");
    assert_eq!(spaced3("", "", ""), "  ");
}

#[test]
fn a_parser_reads_one_formula_after_the_other() {
    let tokens = tokenize("∧ A B ¬ C ∀ x D ∨ E");
    let mut parser = Parser::new(&tokens);
    assert_eq!(parser.parse().unwrap().to_prefix_notation(), "∧ A B");
    assert_eq!(parser.parse_formula().unwrap().to_prefix_notation(), "¬ C");
    assert_eq!(parser.parse().unwrap().to_prefix_notation(), "∀ x D");
    assert_eq!(parser.parse(), Err(ParseError::UnexpectedEnd));
    assert_eq!(parser.parse(), Err(ParseError::UnexpectedEnd));
}

#[test]
fn a_parser_over_no_tokens_fails() {
    let tokens: Vec<String> = Vec::new();
    assert_eq!(Parser::new(&tokens).parse(), Err(ParseError::UnexpectedEnd));
}
