use glox::ast_printer::AstPrinter;
use glox::error::ErrorReporter;
use glox::expr::{Expr, ExprKind};
use glox::tokens::{Lit, LitKind, Token, TokenKind};

fn number(text: &str) -> Expr {
    Expr { kind: ExprKind::Literal(Lit { kind: LitKind::Number(text.to_string()) }) }
}

#[test]
fn binary_renders_as_prefix_with_parentheses() {
    let plus = Token::new(TokenKind::Plus, "+".to_string(), None, 1);
    let expr = Expr {
        kind: ExprKind::Binary(plus, Box::new(number("1.0")), Box::new(number("2.0"))),
    };
    let printer = AstPrinter;
    assert_eq!(printer.print(&expr), "(+ 1.0 2.0)");
}

#[test]
fn printing_twice_yields_identical_strings() {
    let star = Token::new(TokenKind::Star, "*".to_string(), None, 1);
    let expr = Expr {
        kind: ExprKind::Binary(star, Box::new(number("3.0")), Box::new(number("4.5"))),
    };
    let printer = AstPrinter;
    let first = printer.print(&expr);
    let second = printer.print(&expr);
    assert_eq!(first, second);
    assert_eq!(first, "(* 3.0 4.5)");
}

#[test]
fn nested_unary_and_grouping_render_recursively() {
    let minus = Token::new(TokenKind::Minus, "-".to_string(), None, 1);
    let star = Token::new(TokenKind::Star, "*".to_string(), None, 1);
    let expr = Expr {
        kind: ExprKind::Binary(
            star,
            Box::new(Expr { kind: ExprKind::Unary(minus, Box::new(number("123.0"))) }),
            Box::new(Expr { kind: ExprKind::Grouping(Box::new(number("45.67"))) }),
        ),
    };
    let printer = AstPrinter;
    assert_eq!(printer.print(&expr), "(* (- 123.0) (group 45.67))");
}

#[test]
fn nil_literal_renders_as_the_word_nil() {
    let expr = Expr { kind: ExprKind::Literal(Lit { kind: LitKind::Nil }) };
    assert_eq!(AstPrinter.print(&expr), "nil");
}

#[test]
fn bool_literals_render_as_their_words() {
    let t = Expr { kind: ExprKind::Literal(Lit { kind: LitKind::Bool(true) }) };
    let f = Expr { kind: ExprKind::Literal(Lit { kind: LitKind::Bool(false) }) };
    assert_eq!(AstPrinter.print(&t), "true");
    assert_eq!(AstPrinter.print(&f), "false");
}

#[test]
fn string_literal_renders_in_quotes() {
    let expr = Expr {
        kind: ExprKind::Literal(Lit { kind: LitKind::Str("abc".to_string()) }),
    };
    assert_eq!(AstPrinter.print(&expr), "\"abc\"");
}

#[test]
fn accept_dispatches_to_the_matching_visitor_method() {
    let expr = Expr { kind: ExprKind::Grouping(Box::new(number("7.0"))) };
    let printer = AstPrinter;
    assert_eq!(expr.accept(&printer), "(group 7.0)");
}

#[test]
fn token_new_keeps_its_parts() {
    let token = Token::new(
        TokenKind::Str,
        "\"x\"".to_string(),
        Some(Lit { kind: LitKind::Str("x".to_string()) }),
        4,
    );
    assert_eq!(token.kind, TokenKind::Str);
    assert_eq!(token.lexeme, "\"x\"");
    assert_eq!(token.literal, Some(Lit { kind: LitKind::Str("x".to_string()) }));
    assert_eq!(token.line, 4);
}

#[test]
fn error_reporter_starts_clean() {
    let reporter = ErrorReporter::new();
    assert!(!reporter.has_error());
}

#[test]
fn error_reporter_records_and_formats_the_diagnostic() {
    let mut reporter = ErrorReporter::new();
    let msg = reporter.error(7, "UnexpectedCharacter", "occurred while scanning source code");
    assert!(reporter.has_error());
    assert_eq!(
        msg,
        "[line 7] UnexpectedCharacter error : occurred while scanning source code"
    );
}

#[test]
fn error_reporter_renders_multi_digit_lines() {
    let mut reporter = ErrorReporter::new();
    let msg = reporter.error(120, "Scan", "bad input");
    assert_eq!(msg, "[line 120] Scan error : bad input");
}

#[test]
fn error_reporter_reset_forgets_the_error() {
    let mut reporter = ErrorReporter::new();
    let _ = reporter.error(1, "Scan", "x");
    reporter.reset();
    assert!(!reporter.has_error());
}

#[test]
fn str_eq_compares_by_contents() {
    assert!(glox::text::str_eq("while", "while"));
    assert!(!glox::text::str_eq("while", "whilf"));
    assert!(!glox::text::str_eq("while", "whil"));
    assert!(glox::text::str_eq("", ""));
}

#[test]
fn usize_to_string_renders_decimal() {
    assert_eq!(glox::text::usize_to_string(0), "0");
    assert_eq!(glox::text::usize_to_string(9), "9");
    assert_eq!(glox::text::usize_to_string(10), "10");
    assert_eq!(glox::text::usize_to_string(90210), "90210");
}
