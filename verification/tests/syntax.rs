use willow::syntax::{
    is_ending_ident, parenthesized, render, Delimiter, PathArguments, PathSegment, Token,
    TypePath,
};

fn ident(name: &str) -> Token {
    Token::Ident(name.to_string())
}

fn punct(ch: char) -> Token {
    Token::Punct { ch, joint: false }
}

fn joint(ch: char) -> Token {
    Token::Punct { ch, joint: true }
}

fn open() -> Token {
    Token::Open(Delimiter::Parenthesis)
}

fn close() -> Token {
    Token::Close(Delimiter::Parenthesis)
}

fn plain(name: &str) -> PathSegment {
    PathSegment { ident: name.to_string(), arguments: PathArguments::Plain }
}

#[test]
fn tokens_are_written_with_a_space_after_each() {
    let tokens = vec![ident("a"), punct('+'), Token::Literal("1u8".to_string())];
    assert_eq!(render(&tokens, 0, 3), "a + 1u8 ");
    assert_eq!(render(&tokens, 1, 3), "+ 1u8 ");
    assert_eq!(render(&tokens, 1, 1), "");
}

#[test]
fn joint_punctuation_is_written_without_space() {
    let tokens = vec![ident("a"), joint(':'), punct(':'), ident("b"), joint('\''), ident("c")];
    assert_eq!(render(&tokens, 0, 6), "a :: b 'c ");
}

#[test]
fn groups_are_written_with_their_brackets() {
    let tokens = vec![
        open(),
        Token::Open(Delimiter::Bracket),
        ident("x"),
        Token::Close(Delimiter::Bracket),
        Token::Open(Delimiter::Brace),
        Token::Close(Delimiter::Brace),
        close(),
    ];
    assert_eq!(render(&tokens, 0, 7), "( [ x ] { } ) ");
}

#[test]
fn written_tokens_read_back_as_the_same_tokens() {
    let source = "a :: b < 'c , & mut [ T ; 3 ] > -> ( x . y ) += \"s\" 1.5e3";
    let stream: proc_macro2::TokenStream = source.parse().unwrap();
    let mut tokens = Vec::new();
    let mut stack = vec![stream.into_iter()];
    let mut closers: Vec<Option<Delimiter>> = vec![None];
    while let Some(top) = stack.last_mut() {
        match top.next() {
            None => {
                stack.pop();
                if let Some(Some(d)) = closers.pop() {
                    tokens.push(Token::Close(d));
                }
            }
            Some(proc_macro2::TokenTree::Ident(i)) => tokens.push(Token::Ident(i.to_string())),
            Some(proc_macro2::TokenTree::Punct(p)) => tokens.push(Token::Punct {
                ch: p.as_char(),
                joint: p.spacing() == proc_macro2::Spacing::Joint,
            }),
            Some(proc_macro2::TokenTree::Literal(l)) => tokens.push(Token::Literal(l.to_string())),
            Some(proc_macro2::TokenTree::Group(g)) => {
                let d = match g.delimiter() {
                    proc_macro2::Delimiter::Parenthesis => Delimiter::Parenthesis,
                    proc_macro2::Delimiter::Brace => Delimiter::Brace,
                    _ => Delimiter::Bracket,
                };
                tokens.push(Token::Open(d));
                closers.push(Some(d));
                stack.push(g.stream().into_iter());
            }
        }
    }
    let written = render(&tokens, 0, tokens.len());
    let again: proc_macro2::TokenStream = written.parse().unwrap();
    let written_first: proc_macro2::TokenStream = source.parse().unwrap();
    assert_eq!(again.to_string(), written_first.to_string());
}

#[test]
fn one_group_is_recognised() {
    assert!(parenthesized(&vec![open(), close()], 0, 2));
    assert!(parenthesized(&vec![open(), ident("a"), close()], 0, 3));
    assert!(parenthesized(&vec![open(), open(), close(), open(), close(), close()], 0, 6));
    assert!(parenthesized(
        &vec![open(), Token::Open(Delimiter::Brace), Token::Close(Delimiter::Brace), close()],
        0,
        4
    ));
    assert!(parenthesized(&vec![ident("f"), open(), ident("a"), close(), ident("g")], 1, 4));
}

#[test]
fn anything_else_is_not_one_group() {
    assert!(!parenthesized(&vec![], 0, 0));
    assert!(!parenthesized(&vec![open()], 0, 1));
    assert!(!parenthesized(&vec![close(), open()], 0, 2));
    assert!(!parenthesized(&vec![open(), close(), open(), close()], 0, 4));
    assert!(!parenthesized(&vec![open(), close(), ident("a")], 0, 3));
    assert!(!parenthesized(&vec![ident("a"), open(), close()], 0, 3));
    assert!(!parenthesized(&vec![open(), open(), close()], 0, 3));
    assert!(!parenthesized(&vec![open(), close(), close()], 0, 3));
    assert!(!parenthesized(
        &vec![Token::Open(Delimiter::Bracket), Token::Close(Delimiter::Bracket)],
        0,
        2
    ));
    assert!(!parenthesized(&vec![open(), Token::Close(Delimiter::Bracket)], 0, 2));
}

#[test]
fn a_path_ends_with_its_last_segment() {
    let path = TypePath { leading_colon: true, segments: vec![plain("willow"), plain("Uniform")] };
    assert!(is_ending_ident(&path, "Uniform"));
    assert!(!is_ending_ident(&path, "willow"));
    assert!(!is_ending_ident(&path, "Attribute"));
    let empty = TypePath { leading_colon: false, segments: vec![] };
    assert!(!is_ending_ident(&empty, "Uniform"));
}

#[test]
fn a_single_word_is_a_path_of_one_plain_segment() {
    let word = TypePath { leading_colon: false, segments: vec![plain("ProgramData")] };
    assert!(word.is_ident("ProgramData"));
    assert!(!word.is_ident("Program"));
    let rooted = TypePath { leading_colon: true, segments: vec![plain("ProgramData")] };
    assert!(!rooted.is_ident("ProgramData"));
    let long = TypePath { leading_colon: false, segments: vec![plain("willow"), plain("ProgramData")] };
    assert!(!long.is_ident("ProgramData"));
    let generic = TypePath {
        leading_colon: false,
        segments: vec![PathSegment {
            ident: "ProgramData".to_string(),
            arguments: PathArguments::AngleBracketed(vec![]),
        }],
    };
    assert!(!generic.is_ident("ProgramData"));
}
