use scheme_lexer::{Lexer, LiteralKind, Token};
use Token::{
    Apost, BlockComment, CloseCurlyParen, CloseParen, CloseSquareParen, Comment, Directive, Dot,
    Grave, Identifier, OpenByteVec, OpenCurlyParen, OpenParen, OpenSquareParen, OpenVec, Unknown,
    EOF,
};

/// Lexes `input` to the end and checks that `EOF` stays.
fn lex_all(input: &str) -> Vec<Token> {
    let mut lexer = Lexer::new(input);
    let mut tokens = Vec::new();
    loop {
        let token = lexer.next_token();
        if token == EOF {
            break;
        }
        tokens.push(token);
    }
    assert_eq!(EOF, lexer.next_token());
    tokens
}

/// Checks that `input` lexes to exactly `seq`, then `EOF`.
fn expected_sequnce(seq: &[Token], input: &str) {
    let tokens = lex_all(input);
    assert_eq!(tokens.as_slice(), seq);
}

fn ident(s: &str) -> Token {
    Identifier(String::from(s))
}

#[test]
fn no_input() {
    expected_sequnce(&[], "");
}

#[test]
fn parens() {
    expected_sequnce(
        &[
            OpenParen, OpenParen, OpenParen, OpenParen, CloseParen, CloseParen, CloseParen,
            CloseParen,
        ],
        "(((())))",
    );
}

#[test]
fn comment1() {
    expected_sequnce(
        &[Comment(String::from("this is a comment"))],
        "; this is a comment",
    );
}

#[test]
fn single_char_ident() {
    expected_sequnce(&[Identifier(String::from("+"))], "+");
}

#[test]
fn all_extended_char_idents() {
    let extended = [
        '!', '$', '%', '&', '*', '+', '-', '.', '/', ':', '<', '=', '>', '?', '@', '^', '_', '~',
    ];
    for c in extended {
        if c == '.' {
            // a lone '.' is the pair separator
            expected_sequnce(&[Dot], ".");
        } else {
            expected_sequnce(&[Identifier(String::from(c))], &c.to_string());
        }
    }
}

#[test]
fn ident1() {
    expected_sequnce(
        &[
            OpenParen,
            Identifier(String::from("+")),
            Identifier(String::from("var1")),
            Identifier(String::from("var2")),
            CloseParen,
        ],
        "(+ var1 var2)",
    );
}

#[test]
fn test_multiple_ients() {
    let idents = [
        "...",
        "+",
        "+soup+",
        "<=?",
        "->string",
        "a34kTMNs",
        "lambda",
        "list->vector",
        "q",
        "V17a",
        "the-word-recursion-has-many-meanings",
    ];
    for id in idents {
        expected_sequnce(&[Identifier(String::from(id))], id);
    }
    // the pipe form carries the text between the pipes
    expected_sequnce(&[Identifier(String::from("two words"))], "|two words|");
    expected_sequnce(&[Identifier(String::from("two ;words"))], "|two\x20;words|");
}

#[test]
fn eof_repeats() {
    let mut lexer = Lexer::new("(a b)");
    for _ in 0..4 {
        assert_ne!(lexer.next_token(), EOF);
    }
    for _ in 0..5 {
        assert_eq!(lexer.next_token(), EOF);
        assert_eq!(lexer.offset(), 5);
    }
}

#[test]
fn eof_repeats_on_whitespace_only() {
    let mut lexer = Lexer::new(" \t\n ");
    for _ in 0..3 {
        assert_eq!(lexer.next_token(), EOF);
        assert_eq!(lexer.offset(), 4);
    }
}

#[test]
fn spans_partition_input() {
    let input = "  (foo \"a b\")\n; note\n#(x)";
    let chars: Vec<char> = input.chars().collect();
    let mut lexer = Lexer::new(input);
    let mut ends = Vec::new();
    loop {
        let before = lexer.offset();
        let token = lexer.next_token();
        let after = lexer.offset();
        assert!(before <= after);
        let span = &chars[before..after];
        let skipped = span.iter().take_while(|c| c.is_whitespace()).count();
        if token == EOF {
            assert_eq!(skipped, span.len());
            break;
        }
        assert!(skipped < span.len());
        ends.push(after);
    }
    assert_eq!(ends, vec![3, 6, 12, 13, 20, 23, 24, 25]);
    assert_eq!(lexer.offset(), chars.len());
}

#[test]
fn spans_of_each_token() {
    let mut lexer = Lexer::new("(+ ab) ;c");
    let expected = [
        (OpenParen, 1),
        (ident("+"), 2),
        (ident("ab"), 5),
        (CloseParen, 6),
        (Comment(String::from("c")), 9),
        (EOF, 9),
    ];
    for (token, end) in expected {
        assert_eq!(lexer.next_token(), token);
        assert_eq!(lexer.offset(), end);
    }
}

#[test]
fn vector_openers() {
    expected_sequnce(&[OpenByteVec], "#u8(");
    expected_sequnce(&[OpenVec], "#(");
    expected_sequnce(&[OpenByteVec, ident("a"), CloseParen], "#u8(a)");
}

#[test]
fn unterminated_string() {
    expected_sequnce(&[Unknown], "\"abc");
}

#[test]
fn unterminated_block_comment() {
    expected_sequnce(&[Unknown], "#|abc");
    expected_sequnce(&[Unknown], "#|abc|");
}

#[test]
fn unterminated_pipe_identifier() {
    expected_sequnce(&[Unknown], "|abc");
}

#[test]
fn string_literal_raw_text() {
    expected_sequnce(
        &[Token::Literal(LiteralKind::Str(String::from("a \\n b")))],
        "\"a \\n b\"",
    );
    expected_sequnce(
        &[OpenParen, Token::Literal(LiteralKind::Str(String::new())), CloseParen],
        "(\"\")",
    );
}

#[test]
fn booleans() {
    for word in ["t", "true", "f", "false"] {
        expected_sequnce(
            &[Token::Literal(LiteralKind::Boolean(String::from(word)))],
            &format!("#{}", word),
        );
    }
    expected_sequnce(
        &[
            OpenParen,
            Token::Literal(LiteralKind::Boolean(String::from("t"))),
            CloseParen,
        ],
        "(#t)",
    );
}

#[test]
fn bad_boolean_is_unknown() {
    expected_sequnce(&[Unknown], "#tru");
    expected_sequnce(&[Unknown, OpenParen], "#falsey(");
}

#[test]
fn block_comments() {
    expected_sequnce(&[BlockComment(String::from("hi there"))], "#|  hi there \n|#");
    expected_sequnce(&[BlockComment(String::from("a")), ident("b")], "#| a |# b");
    expected_sequnce(&[BlockComment(String::from("x |")), ident("y")], "#|x | |#y");
}

#[test]
fn directives() {
    expected_sequnce(&[Directive(String::from("fold-case"))], "#!fold-case");
    expected_sequnce(
        &[Directive(String::from("no-fold-case")), ident("x")],
        "#!no-fold-case x",
    );
    expected_sequnce(&[Directive(String::new())], "#!");
    expected_sequnce(&[Directive(String::new()), ident("x")], "#! x");
}

#[test]
fn structural_tokens() {
    expected_sequnce(
        &[
            OpenSquareParen,
            CloseSquareParen,
            OpenCurlyParen,
            CloseCurlyParen,
            Apost,
            ident("a"),
            Grave,
            OpenParen,
            CloseParen,
        ],
        "[]{}'a`()",
    );
}

#[test]
fn line_comment_ends_at_newline() {
    expected_sequnce(&[Comment(String::from("hi")), OpenParen], "  ;   hi  \n(");
    expected_sequnce(&[Comment(String::new())], ";");
}

#[test]
fn digits_do_not_start_identifiers() {
    expected_sequnce(&[Unknown, ident("abc")], "1abc");
    expected_sequnce(&[ident("a1")], "a1");
}

#[test]
fn lone_dot_and_dotted_names() {
    expected_sequnce(&[OpenParen, ident("a"), Dot, ident("b"), CloseParen], "(a . b)");
    expected_sequnce(&[ident("a.b")], "a.b");
    expected_sequnce(&[ident("..")], "..");
}

#[test]
fn unicode_letters_and_whitespace() {
    expected_sequnce(&[ident("λx"), ident("été")], "λx\u{3000}été");
}

#[test]
fn unknown_characters() {
    expected_sequnce(&[Unknown, ident("a")], ",a");
    expected_sequnce(&[Unknown], "#");
    expected_sequnce(&[Unknown, ident("u8")], "#u8");
}
