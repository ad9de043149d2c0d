use jsparser::ast::{
    BinOp, Declaration, Keyword, Node, NumOp, Position, Punctuator, Sym, Token, TokenKind,
};
use jsparser::context::{AllowAwait, AllowIn, AllowYield};
use jsparser::cursor::Cursor;
use jsparser::error::{Label, ParseError, TokenDesc};
use jsparser::statement::{VariableDeclaration, VariableDeclarationList, VariableStatement};

fn tok(kind: TokenKind, col: u64) -> Token {
    Token { kind, pos: Position { line: 1, column: col } }
}

fn cursor_over(kinds: &[TokenKind]) -> Cursor {
    let mut v: Vec<Token> = Vec::new();
    let mut col: u64 = 1;
    for k in kinds {
        v.push(tok(*k, col));
        col += 1;
    }
    Cursor::new(v)
}

fn ident(n: u32) -> TokenKind {
    TokenKind::Identifier(Sym(n))
}

fn var_parser() -> VariableStatement {
    VariableStatement::new(AllowYield(false), AllowAwait(false))
}

fn decl(n: u32, init: Option<Node>) -> Declaration {
    Declaration { name: Sym(n), init }
}

#[test]
fn var_single_declaration() {
    let mut c = cursor_over(&[
        TokenKind::Keyword(Keyword::Var),
        ident(1),
        TokenKind::Punctuator(Punctuator::Semicolon),
    ]);
    let r = var_parser().parse(&mut c);
    assert_eq!(r, Ok(Node::VarDecl(vec![decl(1, None)])));
    assert_eq!(c.peek(0), None);
}

#[test]
fn var_initializer_and_second_declaration_in_source_order() {
    let mut c = cursor_over(&[
        TokenKind::Keyword(Keyword::Var),
        ident(1),
        TokenKind::Punctuator(Punctuator::Assign),
        TokenKind::NumericLiteral(1),
        TokenKind::Punctuator(Punctuator::Comma),
        ident(2),
        TokenKind::Punctuator(Punctuator::Semicolon),
    ]);
    let r = var_parser().parse(&mut c);
    assert_eq!(
        r,
        Ok(Node::VarDecl(vec![
            decl(1, Some(Node::Num(1))),
            decl(2, None),
        ]))
    );
}

#[test]
fn var_initializer_may_be_an_exponentiation() {
    let mut c = cursor_over(&[
        TokenKind::Keyword(Keyword::Var),
        ident(1),
        TokenKind::Punctuator(Punctuator::Assign),
        ident(2),
        TokenKind::Punctuator(Punctuator::Exp),
        TokenKind::NumericLiteral(8),
        TokenKind::Punctuator(Punctuator::Semicolon),
    ]);
    let r = var_parser().parse(&mut c);
    let init = Node::BinOp(
        BinOp::Num(NumOp::Exp),
        Box::new(Node::Ident(Sym(2))),
        Box::new(Node::Num(8)),
    );
    assert_eq!(r, Ok(Node::VarDecl(vec![decl(1, Some(init))])));
}

#[test]
fn var_terminates_automatically_on_line_terminator() {
    let mut c = cursor_over(&[
        TokenKind::Keyword(Keyword::Var),
        ident(1),
        TokenKind::LineTerminator,
    ]);
    let r = var_parser().parse(&mut c);
    assert_eq!(r, Ok(Node::VarDecl(vec![decl(1, None)])));
}

#[test]
fn var_terminates_before_close_block_without_consuming_it() {
    let mut c = cursor_over(&[
        TokenKind::Keyword(Keyword::Var),
        ident(1),
        TokenKind::Punctuator(Punctuator::CloseBlock),
    ]);
    let r = var_parser().parse(&mut c);
    assert_eq!(r, Ok(Node::VarDecl(vec![decl(1, None)])));
    assert_eq!(
        c.peek(0).map(|t| t.kind),
        Some(TokenKind::Punctuator(Punctuator::CloseBlock))
    );
}

#[test]
fn var_rejects_unrelated_token_as_separator() {
    let mut c = cursor_over(&[
        TokenKind::Keyword(Keyword::Var),
        ident(1),
        ident(2),
    ]);
    let r = var_parser().parse(&mut c);
    assert_eq!(
        r,
        Err(ParseError::Expected {
            expected: vec![
                TokenDesc::Punct(Punctuator::Semicolon),
                TokenDesc::Punct(Punctuator::Comma),
            ],
            found: tok(ident(2), 3),
            label: Label::LexicalDeclaration,
        })
    );
}

#[test]
fn var_rejects_missing_identifier_with_position() {
    let mut c = cursor_over(&[
        TokenKind::Keyword(Keyword::Var),
        TokenKind::NumericLiteral(5),
        TokenKind::Punctuator(Punctuator::Semicolon),
    ]);
    let r = var_parser().parse(&mut c);
    assert_eq!(
        r,
        Err(ParseError::Expected {
            expected: vec![TokenDesc::Identifier],
            found: tok(TokenKind::NumericLiteral(5), 2),
            label: Label::VariableDeclaration,
        })
    );
}

#[test]
fn var_rejects_missing_keyword() {
    let mut c = cursor_over(&[ident(1)]);
    let r = var_parser().parse(&mut c);
    assert_eq!(
        r,
        Err(ParseError::Expected {
            expected: vec![TokenDesc::Keyword(Keyword::Var)],
            found: tok(ident(1), 1),
            label: Label::VariableStatement,
        })
    );
}

#[test]
fn var_reports_abrupt_end() {
    let mut c = cursor_over(&[TokenKind::Keyword(Keyword::Var)]);
    assert_eq!(var_parser().parse(&mut c), Err(ParseError::AbruptEnd));

    let mut d = cursor_over(&[
        TokenKind::Keyword(Keyword::Var),
        ident(1),
        TokenKind::Punctuator(Punctuator::Assign),
    ]);
    assert_eq!(var_parser().parse(&mut d), Err(ParseError::AbruptEnd));
}

#[test]
fn declaration_list_leaves_the_terminator_unconsumed() {
    let mut c = cursor_over(&[
        ident(1),
        TokenKind::Punctuator(Punctuator::Comma),
        ident(2),
        TokenKind::Punctuator(Punctuator::Semicolon),
    ]);
    let list = VariableDeclarationList::new(AllowIn(true), AllowYield(false), AllowAwait(false));
    let r = list.parse(&mut c);
    assert_eq!(r, Ok(Node::VarDecl(vec![decl(1, None), decl(2, None)])));
    assert_eq!(
        c.peek(0).map(|t| t.kind),
        Some(TokenKind::Punctuator(Punctuator::Semicolon))
    );
}

#[test]
fn single_declarator_with_initializer() {
    let mut c = cursor_over(&[
        ident(3),
        TokenKind::Punctuator(Punctuator::Assign),
        TokenKind::NumericLiteral(7),
    ]);
    let one = VariableDeclaration::new(AllowIn(true), AllowYield(false), AllowAwait(false));
    let r = one.parse(&mut c);
    assert_eq!(r, Ok(decl(3, Some(Node::Num(7)))));
}

#[test]
fn parsing_twice_yields_structurally_identical_fragments() {
    let kinds = [
        TokenKind::Keyword(Keyword::Var),
        ident(1),
        TokenKind::Punctuator(Punctuator::Assign),
        TokenKind::NumericLiteral(2),
        TokenKind::Punctuator(Punctuator::Comma),
        ident(3),
        TokenKind::Punctuator(Punctuator::Semicolon),
    ];
    let mut c1 = cursor_over(&kinds);
    let mut c2 = cursor_over(&kinds);
    let r1 = var_parser().parse(&mut c1);
    let r2 = VariableStatement::new(AllowYield(true), AllowAwait(true)).parse(&mut c2);
    assert_eq!(r1, r2);
}
