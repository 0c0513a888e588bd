use willow::text::{ask_expr, ask_string, ask_type, decimal_text, quote_text, readable, text_eq};

#[test]
fn numbers_are_written_in_decimal() {
    assert_eq!(decimal_text(0), "0");
    assert_eq!(decimal_text(7), "7");
    assert_eq!(decimal_text(10), "10");
    assert_eq!(decimal_text(409), "409");
    assert_eq!(decimal_text(65535), "65535");
}

#[test]
fn plain_text_is_quoted_as_it_is() {
    assert_eq!(quote_text("a_pos"), "\"a_pos\"");
    assert_eq!(quote_text(""), "\"\"");
}

#[test]
fn special_characters_are_escaped() {
    assert_eq!(quote_text("a\"b"), "\"a\\\"b\"");
    assert_eq!(quote_text("a\\b"), "\"a\\\\b\"");
    assert_eq!(quote_text("a\nb\tc\rd"), "\"a\\nb\\tc\\rd\"");
    assert_eq!(quote_text("a\0b"), "\"a\\x00b\"");
}

#[test]
fn a_quoted_text_reads_back_as_the_text() {
    let texts = ["", "plain", "with \"quotes\"", "back\\slash", "line\nbreak", "tab\t", "nul\0 7", "caf\u{e9} \u{1F600}", "'single'", "{braces}"];
    for text in texts {
        let literal: syn::LitStr = syn::parse_str(&quote_text(text)).unwrap();
        assert_eq!(literal.value(), text);
    }
}

#[test]
fn texts_are_compared_by_their_characters() {
    assert!(text_eq("willow", "willow"));
    assert!(text_eq("", ""));
    assert!(!text_eq("willow", "Willow"));
    assert!(!text_eq("willow", "willo"));
}

#[test]
fn a_text_without_unknown_literals_is_readable() {
    assert!(readable(""));
    assert!(readable("Vector3 < f32 >"));
    assert!(readable("concat ! (A , \"abc\" , b'c' , 'c' , 1c , 0xc)"));
    assert!(readable("basic\"x\""));
    assert!(readable("_c\"x\""));
    assert!(readable("c"));
    assert!(readable("cr"));
    assert!(readable("c r\"x\""));
    assert!(readable("(/*ERROR*/"));
    assert!(readable("( /*ERROR*/)"));
}

#[test]
fn a_text_in_which_a_c_string_can_begin_is_not_readable() {
    assert!(!readable("c\"x\""));
    assert!(!readable("cr\"x\""));
    assert!(!readable("cr#\"x\"#"));
    assert!(!readable("f(c\"x\")"));
    assert!(!readable("a + c\"\""));
    assert!(!readable("\u{e9}c\"x\""));
    assert!(!readable("x c\""));
    assert!(!readable("x cr#"));
}

#[test]
fn a_text_with_the_mark_of_a_failed_expansion_is_not_readable() {
    assert!(!readable("(/*ERROR*/)"));
    assert!(!readable("f((/*ERROR*/))"));
    assert!(!readable("a + (/*ERROR*/) "));
}

#[test]
fn types_and_expressions_are_told_apart_from_other_text() {
    assert!(ask_type("Vector3 < f32 >"));
    assert!(ask_type("[f32; 4]"));
    assert!(!ask_type("1 + 2"));
    assert!(!ask_type(""));
    assert!(!ask_type("Foo<c\"x\">"));
    assert!(ask_expr("1 + 2"));
    assert!(ask_expr("include_str!(\"a.vert\")"));
    assert!(!ask_expr("let x"));
    assert!(!ask_expr("c\"x\""));
    assert!(!ask_expr("(/*ERROR*/)"));
}

#[test]
fn a_string_literal_is_read_where_the_text_begins_as_one() {
    assert_eq!(ask_string("\"a\\tb\""), Some("a\tb".to_string()));
    assert_eq!(ask_string("r\"a\\tb\" "), Some("a\\tb".to_string()));
    assert_eq!(ask_string("\"a\" \"b\""), None);
    assert_eq!(ask_string("raw"), None);
    assert_eq!(ask_string("b\"a\""), None);
    assert_eq!(ask_string("c\"a\""), None);
    assert_eq!(ask_string(" \"a\""), None);
    assert_eq!(ask_string(""), None);
    assert_eq!(ask_string("\"unclosed"), None);
}

#[test]
fn a_c_inside_a_string_literal_is_no_c_string() {
    assert!(readable("f(\"a, b, c\")"));
    assert!(readable("include_str!(\"main.c\")"));
    assert!(readable("\"a\\\" c\" + x"));
    assert!(readable("\"a\\\\\" + \" c\""));
    assert!(!readable("\"a\" c\"x\""));
    assert!(!readable("\"a\\\\\" c\"x\""));
    assert!(!readable("f('x', \"a, b, c\")"));
    assert!(!readable("r#\"a, b, c\"#"));
    assert!(!readable("g(\"a c\") // note"));
    assert!(!readable("g(\"a c\") /* note */"));
}
