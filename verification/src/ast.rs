//! Tokens, source positions and AST node shapes.

use vstd::prelude::*;

verus! {

/// An interned identifier handle, as handed out by the lexer's interner.
/// The parser never looks at the identifier's text, only at the handle.
#[derive(Clone, Copy, PartialEq, Eq, Structural, Debug)]
pub struct Sym(pub u32);

/// A line/column source position, carried by every token and reproduced
/// verbatim in diagnostics.
#[derive(Clone, Copy, PartialEq, Eq, Structural, Debug)]
pub struct Position {
    pub line: u64,
    pub column: u64,
}

/// The keywords this grammar slice knows about.
#[derive(Clone, Copy, PartialEq, Eq, Structural, Debug)]
pub enum Keyword {
    Var,
    Delete,
    Void,
    TypeOf,
    In,
    Yield,
    Await,
}

/// The punctuators this grammar slice knows about.
#[derive(Clone, Copy, PartialEq, Eq, Structural, Debug)]
pub enum Punctuator {
    /// unary `+`
    Add,
    /// unary `-`
    Sub,
    /// logical not `!`
    Not,
    /// bitwise not `~`
    Neg,
    /// exponentiation `**`
    Exp,
    /// assignment `=`
    Assign,
    /// `,`
    Comma,
    /// `;`
    Semicolon,
    /// `}`
    CloseBlock,
}

/// The tag of a lexed token.  Line terminators appear in the stream as
/// ordinary entries; the cursor skips them when consuming, and reads them
/// when deciding automatic statement termination.
#[derive(Clone, Copy, PartialEq, Eq, Structural, Debug)]
pub enum TokenKind {
    Keyword(Keyword),
    Punctuator(Punctuator),
    Identifier(Sym),
    NumericLiteral(u64),
    LineTerminator,
}

/// One lexed token: a kind tag plus the source position it came from.
#[derive(Clone, Copy, PartialEq, Eq, Structural, Debug)]
pub struct Token {
    pub kind: TokenKind,
    pub pos: Position,
}

/// Unary operator tags for unary-expression nodes.
#[derive(Clone, Copy, PartialEq, Eq, Structural, Debug)]
pub enum UnaryOp {
    Delete,
    Void,
    TypeOf,
    Plus,
    Minus,
    Not,
    Tilde,
}

/// Numeric binary operators; this slice only builds exponentiations.
#[derive(Clone, Copy, PartialEq, Eq, Structural, Debug)]
pub enum NumOp {
    Exp,
}

/// Binary operator tags for binary-operation nodes.
#[derive(Clone, Copy, PartialEq, Eq, Structural, Debug)]
pub enum BinOp {
    Num(NumOp),
}

/// An AST fragment.  A binary node exclusively owns both operand subtrees,
/// so fragments always form trees.
#[derive(PartialEq, Debug)]
pub enum Node {
    /// An identifier expression.
    Ident(Sym),
    /// A numeric literal expression.
    Num(u64),
    /// A unary operation applied to one operand.
    UnaryOp(UnaryOp, Box<Node>),
    /// A binary operation owning its left and right operands.
    BinOp(BinOp, Box<Node>, Box<Node>),
    /// A variable declaration list, in source order.
    VarDecl(Vec<Declaration>),
}

/// One declarator of a `var` statement: the declared name and its optional
/// initializer expression.
#[derive(PartialEq, Debug)]
pub struct Declaration {
    pub name: Sym,
    pub init: Option<Node>,
}

impl Node {
    /// Builds a binary-operation node owning both operands.
    pub fn bin_op(op: BinOp, lhs: Node, rhs: Node) -> (r: Node)
        ensures
            r == Node::BinOp(op, Box::new(lhs), Box::new(rhs)),
    {
        Node::BinOp(op, Box::new(lhs), Box::new(rhs))
    }
}

} // verus!
