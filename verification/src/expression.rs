//! The exponentiation level of the expression-precedence chain, together
//! with the productions it delegates to.
//!
//! Each production is a small value holding the grammar-context flags it was
//! created with; `parse` drives the cursor and returns either a complete AST
//! fragment or a positioned diagnostic.  A `spec` parse function over the
//! token sequence pins down the result and the cursor movement of every
//! production.

use vstd::prelude::*;

use crate::ast::{BinOp, Keyword, Node, NumOp, Punctuator, Token, TokenKind, UnaryOp};
use crate::context::{AllowAwait, AllowIn, AllowYield};
use crate::cursor::{
    Cursor, lemma_skip_line_terms, skip_line_terms, spec_expect, spec_next, spec_peek,
};
use crate::error::{Label, ParseError, SpecError, TokenDesc};

verus! {

/// The outcome of a production: an AST fragment, or a diagnostic.
pub type ParseResult = Result<Node, ParseError>;

/// The tokens that can begin a unary expression; the grammar forbids a
/// unary expression directly to the left of `**`.
pub open spec fn spec_is_unary_token(k: TokenKind) -> bool {
    ||| k == TokenKind::Keyword(Keyword::Delete)
    ||| k == TokenKind::Keyword(Keyword::Void)
    ||| k == TokenKind::Keyword(Keyword::TypeOf)
    ||| k == TokenKind::Punctuator(Punctuator::Add)
    ||| k == TokenKind::Punctuator(Punctuator::Sub)
    ||| k == TokenKind::Punctuator(Punctuator::Not)
    ||| k == TokenKind::Punctuator(Punctuator::Neg)
}

/// Executable form of [`spec_is_unary_token`].
fn is_unary_token(k: TokenKind) -> (b: bool)
    ensures
        b == spec_is_unary_token(k),
{
    match k {
        TokenKind::Keyword(Keyword::Delete) => true,
        TokenKind::Keyword(Keyword::Void) => true,
        TokenKind::Keyword(Keyword::TypeOf) => true,
        TokenKind::Punctuator(Punctuator::Add) => true,
        TokenKind::Punctuator(Punctuator::Sub) => true,
        TokenKind::Punctuator(Punctuator::Not) => true,
        TokenKind::Punctuator(Punctuator::Neg) => true,
        _ => false,
    }
}

/// The unary-operator tag built for a unary-operator token.
pub open spec fn unary_op_of(k: TokenKind) -> UnaryOp {
    if k == TokenKind::Keyword(Keyword::Delete) {
        UnaryOp::Delete
    } else if k == TokenKind::Keyword(Keyword::Void) {
        UnaryOp::Void
    } else if k == TokenKind::Keyword(Keyword::TypeOf) {
        UnaryOp::TypeOf
    } else if k == TokenKind::Punctuator(Punctuator::Add) {
        UnaryOp::Plus
    } else if k == TokenKind::Punctuator(Punctuator::Sub) {
        UnaryOp::Minus
    } else if k == TokenKind::Punctuator(Punctuator::Not) {
        UnaryOp::Not
    } else {
        UnaryOp::Tilde
    }
}

/// Whether the token the cursor would consume next begins a unary
/// expression.
pub open spec fn spec_is_unary_start(toks: Seq<Token>, pos: int) -> bool {
    match spec_peek(toks, pos, 0) {
        Some(t) => spec_is_unary_token(t.kind),
        None => false,
    }
}

/// What the primary production returns: an identifier or numeric-literal
/// atom, an expected-but-found diagnostic on any other token, or abrupt end.
pub open spec fn spec_parse_primary(toks: Seq<Token>, pos: int) -> (Result<Node, SpecError>, int) {
    match spec_next(toks, pos) {
        None => (Err(SpecError::AbruptEnd), pos),
        Some((t, p)) => match t.kind {
            TokenKind::Identifier(s) => (Ok(Node::Ident(s)), p),
            TokenKind::NumericLiteral(n) => (Ok(Node::Num(n)), p),
            _ => (
                Err(SpecError::Expected {
                    expected: seq![TokenDesc::Identifier, TokenDesc::NumericLiteral],
                    found: t,
                    label: Label::PrimaryExpression,
                }),
                p,
            ),
        },
    }
}

/// What the update production returns.  No update operators belong to this
/// grammar slice, so the level passes straight through to the primary
/// production.
pub open spec fn spec_parse_update(toks: Seq<Token>, pos: int) -> (Result<Node, SpecError>, int) {
    spec_parse_primary(toks, pos)
}

/// What the unary production returns: a chain of unary operators applied to
/// an operand of the update production.
pub open spec fn spec_parse_unary(toks: Seq<Token>, pos: int) -> (Result<Node, SpecError>, int)
    decreases toks.len() - pos when 0 <= pos <= toks.len() via spec_parse_unary_decreases
{
    if spec_is_unary_start(toks, pos) {
        match spec_next(toks, pos) {
            Some((t, p)) => match spec_parse_unary(toks, p) {
                (Ok(inner), p2) => (Ok(Node::UnaryOp(unary_op_of(t.kind), Box::new(inner))), p2),
                (Err(e), p2) => (Err(e), p2),
            },
            None => (Err(SpecError::AbruptEnd), pos),
        }
    } else {
        spec_parse_update(toks, pos)
    }
}

#[via_fn]
proof fn spec_parse_unary_decreases(toks: Seq<Token>, pos: int) {
    if 0 <= pos <= toks.len() {
        lemma_skip_line_terms(toks, pos);
    }
}

/// What the exponentiation production returns.  A position that begins a
/// unary expression is delegated whole to the unary production; otherwise
/// the left operand comes from the update production, and a following `**`
/// recurses into this same level for the right operand, making the operator
/// right-associative.  Any other token after the left operand is pushed
/// back, and the end of the stream simply means no exponentiation follows.
pub open spec fn spec_parse_exp(toks: Seq<Token>, pos: int) -> (Result<Node, SpecError>, int)
    decreases toks.len() - pos when 0 <= pos <= toks.len() via spec_parse_exp_decreases
{
    if spec_is_unary_start(toks, pos) {
        spec_parse_unary(toks, pos)
    } else {
        match spec_parse_update(toks, pos) {
            (Err(e), p) => (Err(e), p),
            (Ok(lhs), p) => match spec_next(toks, p) {
                None => (Ok(lhs), p),
                Some((t, p2)) => if t.kind == TokenKind::Punctuator(Punctuator::Exp) {
                    match spec_parse_exp(toks, p2) {
                        (Ok(rhs), p3) => (
                            (Ok(Node::BinOp(BinOp::Num(NumOp::Exp), Box::new(lhs), Box::new(rhs))), p3)
                        ),
                        (Err(e), p3) => (Err(e), p3),
                    }
                } else {
                    (Ok(lhs), p2 - 1)
                },
            },
        }
    }
}

#[via_fn]
proof fn spec_parse_exp_decreases(toks: Seq<Token>, pos: int) {
    if 0 <= pos <= toks.len() {
        lemma_skip_line_terms(toks, pos);
        lemma_parse_update_bounds(toks, pos);
        match spec_parse_update(toks, pos) {
            (Ok(lhs), p) => {
                lemma_skip_line_terms(toks, p);
            },
            (Err(e), p) => {},
        }
    }
}

/// What an initializer returns: the `=` punctuator followed by an
/// expression of the chain headed here by the exponentiation level.
pub open spec fn spec_parse_initializer(toks: Seq<Token>, pos: int) -> (Result<Node, SpecError>, int) {
    match spec_expect(toks, pos, TokenKind::Punctuator(Punctuator::Assign), Label::Initializer) {
        (Ok(u), p) => spec_parse_exp(toks, p),
        (Err(e), p) => (Err(e), p),
    }
}

/// The primary production never moves the cursor backwards or past the end,
/// and consumes at least one token on success.
pub proof fn lemma_parse_primary_bounds(toks: Seq<Token>, pos: int)
    requires
        0 <= pos <= toks.len(),
    ensures
        pos <= spec_parse_primary(toks, pos).1 <= toks.len(),
        spec_parse_primary(toks, pos).0 is Ok ==> spec_parse_primary(toks, pos).1 > pos,
{
    lemma_skip_line_terms(toks, pos);
}

/// Cursor bounds of the update production.
pub proof fn lemma_parse_update_bounds(toks: Seq<Token>, pos: int)
    requires
        0 <= pos <= toks.len(),
    ensures
        pos <= spec_parse_update(toks, pos).1 <= toks.len(),
        spec_parse_update(toks, pos).0 is Ok ==> spec_parse_update(toks, pos).1 > pos,
{
    lemma_parse_primary_bounds(toks, pos);
}

/// Cursor bounds of the unary production.
pub proof fn lemma_parse_unary_bounds(toks: Seq<Token>, pos: int)
    requires
        0 <= pos <= toks.len(),
    ensures
        pos <= spec_parse_unary(toks, pos).1 <= toks.len(),
        spec_parse_unary(toks, pos).0 is Ok ==> spec_parse_unary(toks, pos).1 > pos,
    decreases toks.len() - pos,
{
    lemma_skip_line_terms(toks, pos);
    if spec_is_unary_start(toks, pos) {
        match spec_next(toks, pos) {
            Some((t, p)) => {
                lemma_parse_unary_bounds(toks, p);
            },
            None => {},
        }
    } else {
        lemma_parse_update_bounds(toks, pos);
    }
}

/// Cursor bounds of the exponentiation production.
pub proof fn lemma_parse_exp_bounds(toks: Seq<Token>, pos: int)
    requires
        0 <= pos <= toks.len(),
    ensures
        pos <= spec_parse_exp(toks, pos).1 <= toks.len(),
        spec_parse_exp(toks, pos).0 is Ok ==> spec_parse_exp(toks, pos).1 > pos,
    decreases toks.len() - pos,
{
    lemma_skip_line_terms(toks, pos);
    if spec_is_unary_start(toks, pos) {
        lemma_parse_unary_bounds(toks, pos);
    } else {
        lemma_parse_update_bounds(toks, pos);
        match spec_parse_update(toks, pos) {
            (Ok(lhs), p) => {
                lemma_skip_line_terms(toks, p);
                match spec_next(toks, p) {
                    Some((t, p2)) => {
                        if t.kind == TokenKind::Punctuator(Punctuator::Exp) {
                            lemma_parse_exp_bounds(toks, p2);
                        }
                    },
                    None => {},
                }
            },
            (Err(e), p) => {},
        }
    }
}

/// Cursor bounds of the initializer production.
pub proof fn lemma_parse_initializer_bounds(toks: Seq<Token>, pos: int)
    requires
        0 <= pos <= toks.len(),
    ensures
        pos <= spec_parse_initializer(toks, pos).1 <= toks.len(),
        spec_parse_initializer(toks, pos).0 is Ok ==> spec_parse_initializer(toks, pos).1 > pos,
{
    lemma_skip_line_terms(toks, pos);
    match spec_expect(toks, pos, TokenKind::Punctuator(Punctuator::Assign), Label::Initializer) {
        (Ok(u), p) => {
            lemma_parse_exp_bounds(toks, p);
        },
        (Err(e), p) => {},
    }
}

/// Parses an identifier or numeric-literal atom.
#[derive(Clone, Copy, PartialEq, Eq, Structural, Debug)]
pub struct PrimaryExpression {
    pub allow_yield: AllowYield,
    pub allow_await: AllowAwait,
}

impl PrimaryExpression {
    /// Creates a new `PrimaryExpression` parser.
    pub fn new(allow_yield: AllowYield, allow_await: AllowAwait) -> (p: Self)
        ensures
            p == (PrimaryExpression { allow_yield, allow_await }),
    {
        PrimaryExpression { allow_yield, allow_await }
    }

    /// Consumes one token and builds the atom it denotes, or reports it.
    pub fn parse(self, cursor: &mut Cursor) -> (res: ParseResult)
        requires
            old(cursor).wf(),
        ensures
            final(cursor).wf(),
            final(cursor).toks() == old(cursor).toks(),
            ({
                let (sr, sp) = spec_parse_primary(old(cursor).toks(), old(cursor).pos());
                &&& final(cursor).pos() == sp
                &&& match (res, sr) {
                    (Ok(n), Ok(sn)) => n == sn,
                    (Err(e), Err(se)) => e@ == se,
                    _ => false,
                }
            }),
    {
        let tok = match cursor.next() {
            Some(t) => t,
            None => {
                return Err(ParseError::AbruptEnd);
            },
        };
        match tok.kind {
            TokenKind::Identifier(s) => Ok(Node::Ident(s)),
            TokenKind::NumericLiteral(n) => Ok(Node::Num(n)),
            _ => {
                let ds = vec![TokenDesc::Identifier, TokenDesc::NumericLiteral];
                proof {
                    assert(ds@ =~= seq![TokenDesc::Identifier, TokenDesc::NumericLiteral]);
                }
                Err(ParseError::expected(ds, tok, Label::PrimaryExpression))
            },
        }
    }
}

/// The update level of the precedence chain.  No update operators belong to
/// this grammar slice, so the level passes straight through to the primary
/// production.
#[derive(Clone, Copy, PartialEq, Eq, Structural, Debug)]
pub struct UpdateExpression {
    pub allow_yield: AllowYield,
    pub allow_await: AllowAwait,
}

impl UpdateExpression {
    /// Creates a new `UpdateExpression` parser.
    pub fn new(allow_yield: AllowYield, allow_await: AllowAwait) -> (p: Self)
        ensures
            p == (UpdateExpression { allow_yield, allow_await }),
    {
        UpdateExpression { allow_yield, allow_await }
    }

    /// Parses one operand of this level.
    pub fn parse(self, cursor: &mut Cursor) -> (res: ParseResult)
        requires
            old(cursor).wf(),
        ensures
            final(cursor).wf(),
            final(cursor).toks() == old(cursor).toks(),
            ({
                let (sr, sp) = spec_parse_update(old(cursor).toks(), old(cursor).pos());
                &&& final(cursor).pos() == sp
                &&& match (res, sr) {
                    (Ok(n), Ok(sn)) => n == sn,
                    (Err(e), Err(se)) => e@ == se,
                    _ => false,
                }
            }),
    {
        PrimaryExpression::new(self.allow_yield, self.allow_await).parse(cursor)
    }
}

/// Parses a unary expression: a unary operator applied to a unary
/// expression, or an operand of the update production.
#[derive(Clone, Copy, PartialEq, Eq, Structural, Debug)]
pub struct UnaryExpression {
    pub allow_yield: AllowYield,
    pub allow_await: AllowAwait,
}

impl UnaryExpression {
    /// Creates a new `UnaryExpression` parser.
    pub fn new(allow_yield: AllowYield, allow_await: AllowAwait) -> (p: Self)
        ensures
            p == (UnaryExpression { allow_yield, allow_await }),
    {
        UnaryExpression { allow_yield, allow_await }
    }

    /// Parses one unary expression.
    pub fn parse(self, cursor: &mut Cursor) -> (res: ParseResult)
        requires
            old(cursor).wf(),
        ensures
            final(cursor).wf(),
            final(cursor).toks() == old(cursor).toks(),
            ({
                let (sr, sp) = spec_parse_unary(old(cursor).toks(), old(cursor).pos());
                &&& final(cursor).pos() == sp
                &&& match (res, sr) {
                    (Ok(n), Ok(sn)) => n == sn,
                    (Err(e), Err(se)) => e@ == se,
                    _ => false,
                }
            }),
        decreases cursor.toks().len() - cursor.pos(),
    {
        let ghost toks = old(cursor).toks();
        let ghost pos0 = old(cursor).pos();
        let pk = cursor.peek(0);
        match pk {
            Some(tok) => {
                if is_unary_token(tok.kind) {
                    proof {
                        lemma_skip_line_terms(toks, pos0);
                    }
                    let consumed = cursor.next();
                    let op = match tok.kind {
                        TokenKind::Keyword(Keyword::Delete) => UnaryOp::Delete,
                        TokenKind::Keyword(Keyword::Void) => UnaryOp::Void,
                        TokenKind::Keyword(Keyword::TypeOf) => UnaryOp::TypeOf,
                        TokenKind::Punctuator(Punctuator::Add) => UnaryOp::Plus,
                        TokenKind::Punctuator(Punctuator::Sub) => UnaryOp::Minus,
                        TokenKind::Punctuator(Punctuator::Not) => UnaryOp::Not,
                        _ => UnaryOp::Tilde,
                    };
                    match self.parse(cursor) {
                        Ok(inner) => Ok(Node::UnaryOp(op, Box::new(inner))),
                        Err(e) => Err(e),
                    }
                } else {
                    UpdateExpression::new(self.allow_yield, self.allow_await).parse(cursor)
                }
            },
            None => UpdateExpression::new(self.allow_yield, self.allow_await).parse(cursor),
        }
    }
}

/// Parses an exponentiation expression: the highest-precedence binary level
/// of the expression grammar.
#[derive(Clone, Copy, PartialEq, Eq, Structural, Debug)]
pub struct ExponentiationExpression {
    pub allow_yield: AllowYield,
    pub allow_await: AllowAwait,
}

impl ExponentiationExpression {
    /// Creates a new `ExponentiationExpression` parser.
    pub fn new(allow_yield: AllowYield, allow_await: AllowAwait) -> (p: Self)
        ensures
            p == (ExponentiationExpression { allow_yield, allow_await }),
    {
        ExponentiationExpression { allow_yield, allow_await }
    }

    /// Checks by looking at the next token (without consuming it) whether a
    /// unary expression begins here; such a position cannot be the left side
    /// of an exponentiation.
    pub fn is_unary_expression(cursor: &Cursor) -> (b: bool)
        requires
            cursor.wf(),
        ensures
            b == spec_is_unary_start(cursor.toks(), cursor.pos()),
    {
        match cursor.peek(0) {
            Some(tok) => is_unary_token(tok.kind),
            None => false,
        }
    }

    /// Parses one exponentiation expression.
    pub fn parse(self, cursor: &mut Cursor) -> (res: ParseResult)
        requires
            old(cursor).wf(),
        ensures
            final(cursor).wf(),
            final(cursor).toks() == old(cursor).toks(),
            ({
                let (sr, sp) = spec_parse_exp(old(cursor).toks(), old(cursor).pos());
                &&& final(cursor).pos() == sp
                &&& match (res, sr) {
                    (Ok(n), Ok(sn)) => n == sn,
                    (Err(e), Err(se)) => e@ == se,
                    _ => false,
                }
            }),
        decreases cursor.toks().len() - cursor.pos(),
    {
        let ghost toks = old(cursor).toks();
        let ghost pos0 = old(cursor).pos();
        if Self::is_unary_expression(cursor) {
            return UnaryExpression::new(self.allow_yield, self.allow_await).parse(cursor);
        }
        let lhs = match UpdateExpression::new(self.allow_yield, self.allow_await).parse(cursor) {
            Ok(n) => n,
            Err(e) => {
                return Err(e);
            },
        };
        proof {
            lemma_parse_update_bounds(toks, pos0);
            lemma_skip_line_terms(toks, cursor.pos());
        }
        match cursor.next() {
            Some(tok) => {
                if tok.kind == TokenKind::Punctuator(Punctuator::Exp) {
                    match self.parse(cursor) {
                        Ok(rhs) => Ok(Node::bin_op(BinOp::Num(NumOp::Exp), lhs, rhs)),
                        Err(e) => Err(e),
                    }
                } else {
                    cursor.back();
                    Ok(lhs)
                }
            },
            None => Ok(lhs),
        }
    }
}

/// Parses an initializer: the `=` punctuator followed by an expression.
#[derive(Clone, Copy, PartialEq, Eq, Structural, Debug)]
pub struct Initializer {
    pub allow_in: AllowIn,
    pub allow_yield: AllowYield,
    pub allow_await: AllowAwait,
}

impl Initializer {
    /// Creates a new `Initializer` parser.
    pub fn new(allow_in: AllowIn, allow_yield: AllowYield, allow_await: AllowAwait) -> (p: Self)
        ensures
            p == (Initializer { allow_in, allow_yield, allow_await }),
    {
        Initializer { allow_in, allow_yield, allow_await }
    }

    /// Parses one initializer.
    pub fn parse(self, cursor: &mut Cursor) -> (res: ParseResult)
        requires
            old(cursor).wf(),
        ensures
            final(cursor).wf(),
            final(cursor).toks() == old(cursor).toks(),
            ({
                let (sr, sp) = spec_parse_initializer(old(cursor).toks(), old(cursor).pos());
                &&& final(cursor).pos() == sp
                &&& match (res, sr) {
                    (Ok(n), Ok(sn)) => n == sn,
                    (Err(e), Err(se)) => e@ == se,
                    _ => false,
                }
            }),
    {
        match cursor.expect(TokenKind::Punctuator(Punctuator::Assign), Label::Initializer) {
            Ok(u) => {},
            Err(e) => {
                return Err(e);
            },
        }
        ExponentiationExpression::new(self.allow_yield, self.allow_await).parse(cursor)
    }
}

/// When the next token is a unary operator, the exponentiation production
/// consumes nothing itself: it delegates the whole parse to the unary
/// production, so a following `**` is never consumed at this level.
pub proof fn lemma_exp_unary_delegation(toks: Seq<Token>, pos: int)
    requires
        0 <= pos <= toks.len(),
        spec_is_unary_start(toks, pos),
    ensures
        spec_parse_exp(toks, pos) == spec_parse_unary(toks, pos),
{
}

/// A token that the primary production accepts as a complete atom.
pub open spec fn is_atom_token(k: TokenKind) -> bool {
    k is Identifier || k is NumericLiteral
}

/// The node the primary production builds for an atom token.
pub open spec fn atom_node(k: TokenKind) -> Node {
    match k {
        TokenKind::Identifier(s) => Node::Ident(s),
        TokenKind::NumericLiteral(n) => Node::Num(n),
        _ => arbitrary(),
    }
}

/// Right-associativity of exponentiation: a token sequence `a ** b ** c`
/// (with atom tokens `a`, `b`, `c`) parses to `a ** (b ** c)` — never to
/// `(a ** b) ** c` — and consumes the whole sequence.
pub proof fn lemma_exp_right_assoc(ta: Token, o1: Token, tb: Token, o2: Token, tc: Token)
    requires
        is_atom_token(ta.kind),
        is_atom_token(tb.kind),
        is_atom_token(tc.kind),
        o1.kind == TokenKind::Punctuator(Punctuator::Exp),
        o2.kind == TokenKind::Punctuator(Punctuator::Exp),
    ensures
        spec_parse_exp(seq![ta, o1, tb, o2, tc], 0) == ((
            Result::<Node, SpecError>::Ok(Node::BinOp(
                BinOp::Num(NumOp::Exp),
                Box::new(atom_node(ta.kind)),
                Box::new(Node::BinOp(
                    BinOp::Num(NumOp::Exp),
                    Box::new(atom_node(tb.kind)),
                    Box::new(atom_node(tc.kind)),
                )),
            )),
            5int,
        )),
{
    let toks = seq![ta, o1, tb, o2, tc];
    assert(skip_line_terms(toks, 0) == 0);
    assert(skip_line_terms(toks, 1) == 1);
    assert(skip_line_terms(toks, 2) == 2);
    assert(skip_line_terms(toks, 3) == 3);
    assert(skip_line_terms(toks, 4) == 4);
    assert(skip_line_terms(toks, 5) == 5);
    assert(spec_parse_exp(toks, 4) == (
        (Result::<Node, SpecError>::Ok(atom_node(tc.kind)), 5int)
    ));
    assert(spec_parse_exp(toks, 2) == ((
        Result::<Node, SpecError>::Ok(Node::BinOp(
            BinOp::Num(NumOp::Exp),
            Box::new(atom_node(tb.kind)),
            Box::new(atom_node(tc.kind)),
        )),
        5int,
    )));
}

} // verus!
