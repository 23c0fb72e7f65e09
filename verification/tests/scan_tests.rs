use glox::scan::{ScanError, ScanErrorTypes, Scanner};
use glox::tokens::{LitKind, Token, TokenKind};

fn scan(source: &str) -> Result<Vec<Token>, ScanError> {
    let mut scanner = Scanner::new(source.to_string());
    scanner.scan_tokens()
}

fn kinds(tokens: &[Token]) -> Vec<TokenKind> {
    tokens.iter().map(|t| t.kind).collect()
}

#[test]
fn empty_source_yields_only_the_end_marker() {
    let tokens = scan("").unwrap();
    assert_eq!(tokens.len(), 1);
    assert_eq!(tokens[0].kind, TokenKind::EOF);
    assert_eq!(tokens[0].lexeme, "");
    assert!(tokens[0].literal.is_none());
    assert_eq!(tokens[0].line, 1);
}

#[test]
fn whitespace_only_yields_only_the_end_marker() {
    let tokens = scan("  \t\r   \t").unwrap();
    assert_eq!(tokens.len(), 1);
    assert_eq!(tokens[0].kind, TokenKind::EOF);
    assert_eq!(tokens[0].line, 1);
}

#[test]
fn whitespace_newlines_advance_the_line_counter() {
    let tokens = scan(" \n \n ").unwrap();
    assert_eq!(tokens.len(), 1);
    assert_eq!(tokens[0].kind, TokenKind::EOF);
    assert_eq!(tokens[0].line, 3);
}

#[test]
fn two_char_operators_scan_as_one_token() {
    let cases = [
        ("!=", TokenKind::BangEqual),
        ("==", TokenKind::EqualEqual),
        ("<=", TokenKind::LessEqual),
        (">=", TokenKind::GreaterEqual),
    ];
    for (source, kind) in cases {
        let tokens = scan(source).unwrap();
        assert_eq!(tokens.len(), 2, "{source} must give exactly one token plus the end marker");
        assert_eq!(tokens[0].kind, kind);
        assert_eq!(tokens[0].lexeme, source);
        assert_eq!(tokens[1].kind, TokenKind::EOF);
    }
}

#[test]
fn one_char_operators_scan_alone() {
    let cases = [
        ("!", TokenKind::Bang),
        ("=", TokenKind::Equal),
        ("<", TokenKind::Less),
        (">", TokenKind::Greater),
    ];
    for (source, kind) in cases {
        let tokens = scan(source).unwrap();
        assert_eq!(tokens.len(), 2);
        assert_eq!(tokens[0].kind, kind);
        assert_eq!(tokens[0].lexeme, source);
    }
}

#[test]
fn maximal_munch_binds_the_equal_sign_to_the_left() {
    let tokens = scan("<=>").unwrap();
    assert_eq!(
        kinds(&tokens),
        vec![TokenKind::LessEqual, TokenKind::Greater, TokenKind::EOF]
    );
}

#[test]
fn comment_produces_no_token() {
    let tokens = scan("// comment\n123").unwrap();
    assert_eq!(tokens.len(), 2);
    assert_eq!(tokens[0].kind, TokenKind::Number);
    assert_eq!(tokens[0].lexeme, "123");
    match &tokens[0].literal {
        Some(l) => assert_eq!(l.kind, LitKind::Number("123.0".to_string())),
        None => panic!("number token must carry a literal"),
    }
    assert_eq!(tokens[0].line, 2);
    assert_eq!(tokens[1].kind, TokenKind::EOF);
}

#[test]
fn comment_at_the_end_of_input_produces_no_token() {
    let tokens = scan("123 // tail").unwrap();
    assert_eq!(kinds(&tokens), vec![TokenKind::Number, TokenKind::EOF]);
}

#[test]
fn slash_alone_is_a_token() {
    let tokens = scan("/").unwrap();
    assert_eq!(kinds(&tokens), vec![TokenKind::Slash, TokenKind::EOF]);
    assert_eq!(tokens[0].lexeme, "/");
}

#[test]
fn unterminated_string_fails_at_line_one() {
    let err = scan("\"abc").unwrap_err();
    assert_eq!(err.kind, ScanErrorTypes::UnterminatedString);
    assert_eq!(err.line, 1);
}

#[test]
fn unterminated_string_reports_its_final_line() {
    let err = scan("\"a\nb\nc").unwrap_err();
    assert_eq!(err.kind, ScanErrorTypes::UnterminatedString);
    assert_eq!(err.line, 3);
}

#[test]
fn string_literal_keeps_its_newline_and_counts_it() {
    let mut scanner = Scanner::new("\"a\nb\"".to_string());
    let tokens = scanner.scan_tokens().unwrap();
    assert_eq!(tokens.len(), 2);
    assert_eq!(tokens[0].kind, TokenKind::Str);
    assert_eq!(tokens[0].lexeme, "\"a\nb\"");
    match &tokens[0].literal {
        Some(l) => assert_eq!(l.kind, LitKind::Str("a\nb".to_string())),
        None => panic!("string token must carry a literal"),
    }
    assert_eq!(tokens[0].line, 2);
    assert_eq!(scanner.line, 2);
}

#[test]
fn string_literal_is_decoded_without_its_quotes() {
    let tokens = scan("\"hi\"").unwrap();
    assert_eq!(tokens[0].lexeme, "\"hi\"");
    match &tokens[0].literal {
        Some(l) => assert_eq!(l.kind, LitKind::Str("hi".to_string())),
        None => panic!("string token must carry a literal"),
    }
}

#[test]
fn backslash_in_a_string_stays_a_backslash() {
    let tokens = scan("\"a\\b\"").unwrap();
    match &tokens[0].literal {
        Some(l) => assert_eq!(l.kind, LitKind::Str("a\\b".to_string())),
        None => panic!("string token must carry a literal"),
    }
}

#[test]
fn number_with_fraction_is_decoded_as_written() {
    let tokens = scan("12.5").unwrap();
    assert_eq!(tokens.len(), 2);
    assert_eq!(tokens[0].kind, TokenKind::Number);
    assert_eq!(tokens[0].lexeme, "12.5");
    match &tokens[0].literal {
        Some(l) => assert_eq!(l.kind, LitKind::Number("12.5".to_string())),
        None => panic!("number token must carry a literal"),
    }
}

#[test]
fn trailing_dot_is_not_consumed_into_the_number() {
    let tokens = scan("12.").unwrap();
    assert_eq!(
        kinds(&tokens),
        vec![TokenKind::Number, TokenKind::Dot, TokenKind::EOF]
    );
    assert_eq!(tokens[0].lexeme, "12");
    match &tokens[0].literal {
        Some(l) => assert_eq!(l.kind, LitKind::Number("12.0".to_string())),
        None => panic!("number token must carry a literal"),
    }
    assert_eq!(tokens[1].lexeme, ".");
}

#[test]
fn integer_number_decodes_with_a_decimal_point() {
    let tokens = scan("007").unwrap();
    assert_eq!(tokens[0].lexeme, "007");
    match &tokens[0].literal {
        Some(l) => assert_eq!(l.kind, LitKind::Number("007.0".to_string())),
        None => panic!("number token must carry a literal"),
    }
}

#[test]
fn keywords_scan_as_their_reserved_kinds() {
    let cases = [
        ("and", TokenKind::And),
        ("class", TokenKind::Class),
        ("else", TokenKind::Else),
        ("false", TokenKind::False),
        ("for", TokenKind::For),
        ("fun", TokenKind::Fun),
        ("if", TokenKind::If),
        ("nil", TokenKind::Nil),
        ("or", TokenKind::Or),
        ("print", TokenKind::Print),
        ("return", TokenKind::Return),
        ("super", TokenKind::Super),
        ("this", TokenKind::This),
        ("true", TokenKind::True),
        ("var", TokenKind::Var),
        ("while", TokenKind::While),
    ];
    for (source, kind) in cases {
        let tokens = scan(source).unwrap();
        assert_eq!(tokens.len(), 2, "{source} must scan to one keyword token");
        assert_eq!(tokens[0].kind, kind);
        assert_eq!(tokens[0].lexeme, source);
        assert!(tokens[0].literal.is_none());
    }
}

#[test]
fn other_alphabetic_runs_scan_as_identifiers() {
    for source in ["foobar123", "orchid", "While", "classes", "nilx"] {
        let tokens = scan(source).unwrap();
        assert_eq!(tokens.len(), 2);
        assert_eq!(tokens[0].kind, TokenKind::Identifier, "{source}");
        assert_eq!(tokens[0].lexeme, source);
        assert!(tokens[0].literal.is_none());
    }
}

#[test]
fn unexpected_character_fails_the_whole_scan() {
    let err = scan("( @ )").unwrap_err();
    assert_eq!(err.kind, ScanErrorTypes::UnexpectedCharacter);
    assert_eq!(err.line, 1);
}

#[test]
fn unexpected_character_reports_its_line() {
    let err = scan("(\n)\n~").unwrap_err();
    assert_eq!(err.kind, ScanErrorTypes::UnexpectedCharacter);
    assert_eq!(err.line, 3);
}

#[test]
fn punctuation_scans_one_token_per_character() {
    let tokens = scan("(){},.-+;*").unwrap();
    assert_eq!(
        kinds(&tokens),
        vec![
            TokenKind::LeftParenthesis,
            TokenKind::RightParenthesis,
            TokenKind::LeftBrace,
            TokenKind::RightBrace,
            TokenKind::Comma,
            TokenKind::Dot,
            TokenKind::Minus,
            TokenKind::Plus,
            TokenKind::Semicolon,
            TokenKind::Star,
            TokenKind::EOF,
        ]
    );
}

#[test]
fn statement_like_input_scans_in_order() {
    let tokens = scan("var answer = 42;").unwrap();
    assert_eq!(
        kinds(&tokens),
        vec![
            TokenKind::Var,
            TokenKind::Identifier,
            TokenKind::Equal,
            TokenKind::Number,
            TokenKind::Semicolon,
            TokenKind::EOF,
        ]
    );
    assert_eq!(tokens[1].lexeme, "answer");
    match &tokens[3].literal {
        Some(l) => assert_eq!(l.kind, LitKind::Number("42.0".to_string())),
        None => panic!("number token must carry a literal"),
    }
}

#[test]
fn scanner_new_starts_at_the_beginning() {
    let scanner = Scanner::new("abc".to_string());
    assert_eq!(scanner.start, 0);
    assert_eq!(scanner.current, 0);
    assert_eq!(scanner.line, 1);
    assert_eq!(scanner.source, "abc");
}

#[test]
fn scan_error_new_keeps_its_parts() {
    let err = ScanError::new(9, ScanErrorTypes::UnterminatedString);
    assert_eq!(err.line, 9);
    assert_eq!(err.kind, ScanErrorTypes::UnterminatedString);
}

#[test]
fn empty_string_literal_decodes_to_the_empty_string() {
    let tokens = scan("\"\"").unwrap();
    assert_eq!(tokens[0].kind, TokenKind::Str);
    assert_eq!(tokens[0].lexeme, "\"\"");
    match &tokens[0].literal {
        Some(l) => assert_eq!(l.kind, LitKind::Str(String::new())),
        None => panic!("string token must carry a literal"),
    }
}

#[test]
fn dot_after_number_starts_a_member_access() {
    let tokens = scan("12.x").unwrap();
    assert_eq!(
        kinds(&tokens),
        vec![
            TokenKind::Number,
            TokenKind::Dot,
            TokenKind::Identifier,
            TokenKind::EOF,
        ]
    );
    assert_eq!(tokens[2].lexeme, "x");
}

#[test]
fn tokens_after_a_multiline_string_carry_the_later_line() {
    let tokens = scan("\"a\nb\" x").unwrap();
    assert_eq!(tokens[1].kind, TokenKind::Identifier);
    assert_eq!(tokens[1].line, 2);
}

#[test]
fn lookup_keyword_classifies_exactly() {
    assert_eq!(glox::tokens::lookup_keyword("and"), TokenKind::And);
    assert_eq!(glox::tokens::lookup_keyword("anda"), TokenKind::Identifier);
    assert_eq!(glox::tokens::lookup_keyword("And"), TokenKind::Identifier);
    assert_eq!(glox::tokens::lookup_keyword("while"), TokenKind::While);
}
