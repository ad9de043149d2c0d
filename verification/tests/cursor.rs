use jsparser::ast::{Keyword, Position, Punctuator, Sym, Token, TokenKind};
use jsparser::cursor::Cursor;
use jsparser::error::{Label, ParseError, TokenDesc};

fn tok(kind: TokenKind, col: u64) -> Token {
    Token { kind, pos: Position { line: 1, column: col } }
}

fn cursor_over(kinds: &[TokenKind]) -> Cursor {
    let mut v: Vec<Token> = Vec::new();
    let mut col: u64 = 1;
    for k in kinds {
        v.push(tok(*k, col));
        col += 1;
    }
    Cursor::new(v)
}

fn ident(n: u32) -> TokenKind {
    TokenKind::Identifier(Sym(n))
}

#[test]
fn next_returns_tokens_in_order() {
    let mut c = cursor_over(&[ident(1), ident(2)]);
    assert_eq!(c.next().map(|t| t.kind), Some(ident(1)));
    assert_eq!(c.next().map(|t| t.kind), Some(ident(2)));
    assert_eq!(c.next(), None);
}

#[test]
fn next_skips_line_terminators() {
    let mut c = cursor_over(&[TokenKind::LineTerminator, ident(1), TokenKind::LineTerminator]);
    assert_eq!(c.next().map(|t| t.kind), Some(ident(1)));
    assert_eq!(c.next(), None);
}

#[test]
fn back_then_next_is_idempotent() {
    let mut c = cursor_over(&[ident(1), ident(2)]);
    let first = c.next();
    c.back();
    let again = c.next();
    assert_eq!(first, again);
    assert_eq!(c.next().map(|t| t.kind), Some(ident(2)));
}

#[test]
fn back_then_next_after_line_terminators() {
    let mut c = cursor_over(&[TokenKind::LineTerminator, ident(7), ident(8)]);
    let first = c.next();
    c.back();
    let again = c.next();
    assert_eq!(first, again);
    assert_eq!(first.map(|t| t.kind), Some(ident(7)));
    assert_eq!(c.next().map(|t| t.kind), Some(ident(8)));
}

#[test]
fn peek_has_no_side_effects() {
    let c = cursor_over(&[ident(1), TokenKind::LineTerminator, ident(2)]);
    assert_eq!(c.peek(0).map(|t| t.kind), Some(ident(1)));
    assert_eq!(c.peek(0).map(|t| t.kind), Some(ident(1)));
    assert_eq!(c.peek(1).map(|t| t.kind), Some(ident(2)));
    assert_eq!(c.peek(2), None);
}

#[test]
fn peek_semicolon_on_semicolon() {
    let c = cursor_over(&[TokenKind::Punctuator(Punctuator::Semicolon)]);
    let (can_end, t) = c.peek_semicolon(false);
    assert!(can_end);
    assert_eq!(t.map(|t| t.kind), Some(TokenKind::Punctuator(Punctuator::Semicolon)));
}

#[test]
fn peek_semicolon_on_close_block_and_end() {
    let c = cursor_over(&[TokenKind::Punctuator(Punctuator::CloseBlock)]);
    assert!(c.peek_semicolon(true).0);
    let e = cursor_over(&[]);
    assert_eq!(e.peek_semicolon(true), (true, None));
}

#[test]
fn peek_semicolon_on_line_terminator_depends_on_strict() {
    let c = cursor_over(&[TokenKind::LineTerminator, ident(1)]);
    assert!(c.peek_semicolon(false).0);
    let (can_end, t) = c.peek_semicolon(true);
    assert!(!can_end);
    assert_eq!(t.map(|t| t.kind), Some(TokenKind::LineTerminator));
}

#[test]
fn peek_semicolon_reports_conflicting_token() {
    let c = cursor_over(&[ident(9)]);
    let (can_end, t) = c.peek_semicolon(false);
    assert!(!can_end);
    assert_eq!(t.map(|t| t.kind), Some(ident(9)));
}

#[test]
fn expect_consumes_matching_token() {
    let mut c = cursor_over(&[TokenKind::Keyword(Keyword::Var), ident(1)]);
    assert_eq!(c.expect(TokenKind::Keyword(Keyword::Var), Label::VariableStatement), Ok(()));
    assert_eq!(c.next().map(|t| t.kind), Some(ident(1)));
}

#[test]
fn expect_reports_mismatch_with_position() {
    let mut c = cursor_over(&[ident(3)]);
    let r = c.expect(TokenKind::Keyword(Keyword::Var), Label::VariableStatement);
    assert_eq!(
        r,
        Err(ParseError::Expected {
            expected: vec![TokenDesc::Keyword(Keyword::Var)],
            found: tok(ident(3), 1),
            label: Label::VariableStatement,
        })
    );
}

#[test]
fn expect_reports_abrupt_end() {
    let mut c = cursor_over(&[]);
    let r = c.expect(TokenKind::Keyword(Keyword::Var), Label::VariableStatement);
    assert_eq!(r, Err(ParseError::AbruptEnd));
}

#[test]
fn expect_semicolon_consumes_only_explicit_semicolon() {
    let mut c = cursor_over(&[TokenKind::Punctuator(Punctuator::Semicolon), ident(1)]);
    assert_eq!(c.expect_semicolon(false, Label::VariableStatement), Ok(()));
    assert_eq!(c.next().map(|t| t.kind), Some(ident(1)));

    let mut b = cursor_over(&[TokenKind::Punctuator(Punctuator::CloseBlock)]);
    assert_eq!(b.expect_semicolon(false, Label::VariableStatement), Ok(()));
    assert_eq!(
        b.peek(0).map(|t| t.kind),
        Some(TokenKind::Punctuator(Punctuator::CloseBlock))
    );
}

#[test]
fn expect_semicolon_rejects_ordinary_token() {
    let mut c = cursor_over(&[ident(4)]);
    let r = c.expect_semicolon(false, Label::VariableStatement);
    assert_eq!(
        r,
        Err(ParseError::Expected {
            expected: vec![TokenDesc::Punct(Punctuator::Semicolon)],
            found: tok(ident(4), 1),
            label: Label::VariableStatement,
        })
    );
}
