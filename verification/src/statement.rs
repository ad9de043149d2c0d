//! The `var` statement and its declaration-list production.
//!
//! A variable statement is the `var` keyword, a non-empty comma-separated
//! list of declarators (each an identifier with an optional initializer),
//! and a statement termination per the automatic-termination rule.

use vstd::prelude::*;

use crate::ast::{Declaration, Keyword, Node, Punctuator, Token, TokenKind};
use crate::context::{AllowAwait, AllowIn, AllowYield};
use crate::cursor::{
    Cursor, lemma_skip_line_terms, spec_expect, spec_expect_semicolon, spec_next, spec_peek,
    spec_peek_semicolon,
};
use crate::error::{Label, ParseError, SpecError, TokenDesc};
use crate::expression::{
    Initializer, ParseResult, lemma_parse_initializer_bounds, spec_parse_exp,
    spec_parse_initializer,
};

verus! {

/// What one declarator returns: an identifier token (anything else is
/// reported as an expected-identifier diagnostic at its position), then an
/// initializer exactly when the next token is the assignment punctuator.
pub open spec fn spec_parse_var_decl(toks: Seq<Token>, pos: int) -> (Result<Declaration, SpecError>, int) {
    match spec_next(toks, pos) {
        None => (Err(SpecError::AbruptEnd), pos),
        Some((t, p)) => match t.kind {
            TokenKind::Identifier(name) => match spec_peek(toks, p, 0) {
                Some(tk) => if tk.kind == TokenKind::Punctuator(Punctuator::Assign) {
                    match spec_parse_initializer(toks, p) {
                        (Ok(init), p2) => (Ok(Declaration { name, init: Some(init) }), p2),
                        (Err(e), p2) => (Err(e), p2),
                    }
                } else {
                    (Ok(Declaration { name, init: None }), p)
                },
                None => (Ok(Declaration { name, init: None }), p),
            },
            _ => (
                Err(SpecError::Expected {
                    expected: seq![TokenDesc::Identifier],
                    found: t,
                    label: Label::VariableDeclaration,
                }),
                p,
            ),
        },
    }
}

/// Cursor bounds of one declarator.
pub proof fn lemma_parse_var_decl_bounds(toks: Seq<Token>, pos: int)
    requires
        0 <= pos <= toks.len(),
    ensures
        pos <= spec_parse_var_decl(toks, pos).1 <= toks.len(),
        spec_parse_var_decl(toks, pos).0 is Ok ==> spec_parse_var_decl(toks, pos).1 > pos,
{
    lemma_skip_line_terms(toks, pos);
    match spec_next(toks, pos) {
        Some((t, p)) => match t.kind {
            TokenKind::Identifier(name) => {
                lemma_parse_initializer_bounds(toks, p);
            },
            _ => {},
        },
        None => {},
    }
}

/// What the declaration-list production returns: one or more declarators in
/// source order, separated by commas, up to a position where the statement
/// may terminate; any other separator is reported as expected
/// semicolon-or-comma.
pub open spec fn spec_parse_var_list(toks: Seq<Token>, pos: int) -> (Result<Seq<Declaration>, SpecError>, int)
    decreases toks.len() - pos when 0 <= pos <= toks.len() via spec_parse_var_list_decreases
{
    match spec_parse_var_decl(toks, pos) {
        (Err(e), p) => (Err(e), p),
        (Ok(d), p) => {
            let (can_end, nt) = spec_peek_semicolon(toks, p, false);
            if can_end {
                (Ok(seq![d]), p)
            } else {
                match nt {
                    Some(tk) => if tk.kind == TokenKind::Punctuator(Punctuator::Comma) {
                        match spec_parse_var_list(toks, p + 1) {
                            (Ok(ds), p2) => (Ok(seq![d] + ds), p2),
                            (Err(e), p2) => (Err(e), p2),
                        }
                    } else {
                        (
                            Err(SpecError::Expected {
                                expected: seq![
                                    TokenDesc::Punct(Punctuator::Semicolon),
                                    TokenDesc::Punct(Punctuator::Comma),
                                ],
                                found: tk,
                                label: Label::LexicalDeclaration,
                            }),
                            p,
                        )
                    },
                    None => (Err(SpecError::AbruptEnd), p),
                }
            }
        },
    }
}

#[via_fn]
proof fn spec_parse_var_list_decreases(toks: Seq<Token>, pos: int) {
    if 0 <= pos <= toks.len() {
        lemma_parse_var_decl_bounds(toks, pos);
    }
}

/// What the variable statement returns: the `var` keyword, the declaration
/// list, then a statement termination.
pub open spec fn spec_parse_var_stmt(toks: Seq<Token>, pos: int) -> (Result<Seq<Declaration>, SpecError>, int) {
    match spec_expect(toks, pos, TokenKind::Keyword(Keyword::Var), Label::VariableStatement) {
        (Err(e), p) => (Err(e), p),
        (Ok(u), p) => match spec_parse_var_list(toks, p) {
            (Err(e), p2) => (Err(e), p2),
            (Ok(ds), p2) => match spec_expect_semicolon(toks, p2, false, Label::VariableStatement) {
                (Err(e), p3) => (Err(e), p3),
                (Ok(u2), p3) => (Ok(ds), p3),
            },
        },
    }
}

/// Splices declarators already accumulated in front of the outcome of
/// parsing the remainder of a declaration list.
pub open spec fn prepend_decls(
    acc: Seq<Declaration>,
    r: (Result<Seq<Declaration>, SpecError>, int),
) -> (Result<Seq<Declaration>, SpecError>, int) {
    match r {
        (Ok(ds), p) => (Ok(acc + ds), p),
        (Err(e), p) => (Err(e), p),
    }
}

proof fn lemma_prepend_empty(r: (Result<Seq<Declaration>, SpecError>, int))
    ensures
        prepend_decls(Seq::<Declaration>::empty(), r) == r,
{
    match r {
        (Ok(ds), p) => {
            assert(Seq::<Declaration>::empty() + ds =~= ds);
        },
        (Err(e), p) => {},
    }
}

proof fn lemma_prepend_prepend(
    acc: Seq<Declaration>,
    d: Declaration,
    r: (Result<Seq<Declaration>, SpecError>, int),
)
    ensures
        prepend_decls(acc, prepend_decls(seq![d], r)) == prepend_decls(acc.push(d), r),
{
    match r {
        (Ok(ds), p) => {
            assert(acc + (seq![d] + ds) =~= acc.push(d) + ds);
        },
        (Err(e), p) => {},
    }
}

/// Parses a variable statement: the `var` keyword, a declaration list, and
/// a statement termination.
#[derive(Clone, Copy, PartialEq, Eq, Structural, Debug)]
pub struct VariableStatement {
    pub allow_yield: AllowYield,
    pub allow_await: AllowAwait,
}

impl VariableStatement {
    /// Creates a new `VariableStatement` parser.
    pub fn new(allow_yield: AllowYield, allow_await: AllowAwait) -> (p: Self)
        ensures
            p == (VariableStatement { allow_yield, allow_await }),
    {
        VariableStatement { allow_yield, allow_await }
    }

    /// Parses one variable statement into a declaration-list node.
    pub fn parse(self, cursor: &mut Cursor) -> (res: ParseResult)
        requires
            old(cursor).wf(),
        ensures
            final(cursor).wf(),
            final(cursor).toks() == old(cursor).toks(),
            ({
                let (sr, sp) = spec_parse_var_stmt(old(cursor).toks(), old(cursor).pos());
                &&& final(cursor).pos() == sp
                &&& match (res, sr) {
                    (Ok(n), Ok(sds)) => match n {
                        Node::VarDecl(ds) => ds@ == sds,
                        _ => false,
                    },
                    (Err(e), Err(se)) => e@ == se,
                    _ => false,
                }
            }),
    {
        match cursor.expect(TokenKind::Keyword(Keyword::Var), Label::VariableStatement) {
            Ok(u) => {},
            Err(e) => {
                return Err(e);
            },
        }
        let decl_list = match VariableDeclarationList::new(
            AllowIn(true),
            self.allow_yield,
            self.allow_await,
        ).parse(cursor) {
            Ok(n) => n,
            Err(e) => {
                return Err(e);
            },
        };
        match cursor.expect_semicolon(false, Label::VariableStatement) {
            Ok(u) => {},
            Err(e) => {
                return Err(e);
            },
        }
        Ok(decl_list)
    }
}

/// Parses a comma-separated, non-empty variable declaration list.
#[derive(Clone, Copy, PartialEq, Eq, Structural, Debug)]
pub struct VariableDeclarationList {
    pub allow_in: AllowIn,
    pub allow_yield: AllowYield,
    pub allow_await: AllowAwait,
}

impl VariableDeclarationList {
    /// Creates a new `VariableDeclarationList` parser.
    pub fn new(allow_in: AllowIn, allow_yield: AllowYield, allow_await: AllowAwait) -> (p: Self)
        ensures
            p == (VariableDeclarationList { allow_in, allow_yield, allow_await }),
    {
        VariableDeclarationList { allow_in, allow_yield, allow_await }
    }

    /// Parses the declarators in source order into a declaration-list node.
    pub fn parse(self, cursor: &mut Cursor) -> (res: ParseResult)
        requires
            old(cursor).wf(),
        ensures
            final(cursor).wf(),
            final(cursor).toks() == old(cursor).toks(),
            ({
                let (sr, sp) = spec_parse_var_list(old(cursor).toks(), old(cursor).pos());
                &&& final(cursor).pos() == sp
                &&& match (res, sr) {
                    (Ok(n), Ok(sds)) => match n {
                        Node::VarDecl(ds) => ds@ == sds,
                        _ => false,
                    },
                    (Err(e), Err(se)) => e@ == se,
                    _ => false,
                }
            }),
    {
        let ghost toks = old(cursor).toks();
        let ghost pos0 = old(cursor).pos();
        let mut list: Vec<Declaration> = Vec::new();
        proof {
            lemma_prepend_empty(spec_parse_var_list(toks, pos0));
        }
        loop
            invariant_except_break
                spec_parse_var_list(toks, pos0) == prepend_decls(
                    list@,
                    spec_parse_var_list(toks, cursor.pos()),
                ),
            invariant
                cursor.wf(),
                cursor.toks() == toks,
                toks == old(cursor).toks(),
                pos0 == old(cursor).pos(),
            ensures
                spec_parse_var_list(toks, pos0) == ((
                    Result::<Seq<Declaration>, SpecError>::Ok(list@),
                    cursor.pos(),
                )),
            decreases toks.len() - cursor.pos(),
        {
            let ghost list0 = list@;
            let ghost pos_cur = cursor.pos();
            proof {
                lemma_parse_var_decl_bounds(toks, pos_cur);
            }
            let d = match VariableDeclaration::new(
                self.allow_in,
                self.allow_yield,
                self.allow_await,
            ).parse(cursor) {
                Ok(d) => d,
                Err(e) => {
                    return Err(e);
                },
            };
            list.push(d);
            let (can_end, tk) = cursor.peek_semicolon(false);
            if can_end {
                proof {
                    assert(list0 + seq![d] =~= list@);
                }
                break;
            }
            match tk {
                Some(t) => {
                    if t.kind == TokenKind::Punctuator(Punctuator::Comma) {
                        let _ = cursor.next();
                        proof {
                            lemma_prepend_prepend(
                                list0,
                                d,
                                spec_parse_var_list(toks, cursor.pos()),
                            );
                        }
                    } else {
                        let ds = vec![
                            TokenDesc::Punct(Punctuator::Semicolon),
                            TokenDesc::Punct(Punctuator::Comma),
                        ];
                        proof {
                            assert(ds@ =~= seq![
                                TokenDesc::Punct(Punctuator::Semicolon),
                                TokenDesc::Punct(Punctuator::Comma),
                            ]);
                        }
                        return Err(ParseError::expected(ds, t, Label::LexicalDeclaration));
                    }
                },
                None => unreached(),
            }
        }
        Ok(Node::VarDecl(list))
    }
}

/// Reads one individual variable declarator.
#[derive(Clone, Copy, PartialEq, Eq, Structural, Debug)]
pub struct VariableDeclaration {
    pub allow_in: AllowIn,
    pub allow_yield: AllowYield,
    pub allow_await: AllowAwait,
}

impl VariableDeclaration {
    /// Creates a new `VariableDeclaration` parser.
    pub fn new(allow_in: AllowIn, allow_yield: AllowYield, allow_await: AllowAwait) -> (p: Self)
        ensures
            p == (VariableDeclaration { allow_in, allow_yield, allow_await }),
    {
        VariableDeclaration { allow_in, allow_yield, allow_await }
    }

    /// Parses one declarator: an identifier and its optional initializer.
    pub fn parse(self, cursor: &mut Cursor) -> (res: Result<Declaration, ParseError>)
        requires
            old(cursor).wf(),
        ensures
            final(cursor).wf(),
            final(cursor).toks() == old(cursor).toks(),
            ({
                let (sr, sp) = spec_parse_var_decl(old(cursor).toks(), old(cursor).pos());
                &&& final(cursor).pos() == sp
                &&& match (res, sr) {
                    (Ok(d), Ok(sd)) => d == sd,
                    (Err(e), Err(se)) => e@ == se,
                    _ => false,
                }
            }),
    {
        let tok = match cursor.next() {
            Some(t) => t,
            None => {
                return Err(ParseError::AbruptEnd);
            },
        };
        let name = match tok.kind {
            TokenKind::Identifier(s) => s,
            _ => {
                let ds = vec![TokenDesc::Identifier];
                proof {
                    assert(ds@ =~= seq![TokenDesc::Identifier]);
                }
                return Err(ParseError::expected(ds, tok, Label::VariableDeclaration));
            },
        };
        match cursor.peek(0) {
            Some(tk) => {
                if tk.kind == TokenKind::Punctuator(Punctuator::Assign) {
                    match Initializer::new(self.allow_in, self.allow_yield, self.allow_await)
                        .parse(cursor) {
                        Ok(init) => Ok(Declaration { name, init: Some(init) }),
                        Err(e) => Err(e),
                    }
                } else {
                    Ok(Declaration { name, init: None })
                }
            },
            None => Ok(Declaration { name, init: None }),
        }
    }
}

/// Parsing is a pure function of the token sequence and the start position:
/// parsing equal token sequences from equal positions with fresh
/// cursor/context values yields structurally identical outcomes — no hidden
/// mutable state influences a parse.
pub proof fn lemma_parse_deterministic(toks1: Seq<Token>, pos1: int, toks2: Seq<Token>, pos2: int)
    requires
        toks1 == toks2,
        pos1 == pos2,
    ensures
        spec_parse_exp(toks1, pos1) == spec_parse_exp(toks2, pos2),
        spec_parse_var_stmt(toks1, pos1) == spec_parse_var_stmt(toks2, pos2),
{
}

} // verus!
