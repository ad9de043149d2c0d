//! Positioned parse diagnostics.
//!
//! A diagnostic is an ordinary value handed back up the production chain,
//! never a panic: a production either fully succeeds or returns one of the
//! two failure shapes below.

use vstd::prelude::*;

use crate::ast::{Keyword, Punctuator, Token, TokenKind};

verus! {

/// A description of a token shape, used in the `expected` set of an
/// expected-but-found diagnostic.
#[derive(Clone, Copy, PartialEq, Eq, Structural, Debug)]
pub enum TokenDesc {
    Keyword(Keyword),
    Punct(Punctuator),
    Identifier,
    NumericLiteral,
    LineTerminator,
}

/// The grammar production a diagnostic was raised while parsing, used as
/// the label of the rendered error message.
#[derive(Clone, Copy, PartialEq, Eq, Structural, Debug)]
pub enum Label {
    VariableStatement,
    LexicalDeclaration,
    VariableDeclaration,
    Initializer,
    PrimaryExpression,
}

/// A parse failure.
#[derive(PartialEq, Debug)]
pub enum ParseError {
    /// One of `expected` was required, but `found` (with its position) stood
    /// there, while parsing the production named by `label`.
    Expected { expected: Vec<TokenDesc>, found: Token, label: Label },
    /// The token stream ended where a token was required, so there is no
    /// offending token to report.
    AbruptEnd,
}

/// The mathematical form of a [`ParseError`], with the expected set as a
/// sequence; the specifications of the productions speak of this form.
pub enum SpecError {
    Expected { expected: Seq<TokenDesc>, found: Token, label: Label },
    AbruptEnd,
}

impl View for ParseError {
    type V = SpecError;

    open spec fn view(&self) -> SpecError {
        match self {
            ParseError::Expected { expected, found, label } => SpecError::Expected {
                expected: expected@,
                found: *found,
                label: *label,
            },
            ParseError::AbruptEnd => SpecError::AbruptEnd,
        }
    }
}

impl ParseError {
    /// Builds the expected-but-found diagnostic used throughout the
    /// productions.
    pub fn expected(expected: Vec<TokenDesc>, found: Token, label: Label) -> (e: ParseError)
        ensures
            e@ == (SpecError::Expected { expected: expected@, found, label }),
    {
        ParseError::Expected { expected, found, label }
    }
}

/// The description under which a concrete token kind is reported in an
/// expected set.
pub open spec fn spec_desc_of(kind: TokenKind) -> TokenDesc {
    match kind {
        TokenKind::Keyword(k) => TokenDesc::Keyword(k),
        TokenKind::Punctuator(p) => TokenDesc::Punct(p),
        TokenKind::Identifier(_) => TokenDesc::Identifier,
        TokenKind::NumericLiteral(_) => TokenDesc::NumericLiteral,
        TokenKind::LineTerminator => TokenDesc::LineTerminator,
    }
}

/// Executable form of [`spec_desc_of`].
pub fn desc_of(kind: TokenKind) -> (d: TokenDesc)
    ensures
        d == spec_desc_of(kind),
{
    match kind {
        TokenKind::Keyword(k) => TokenDesc::Keyword(k),
        TokenKind::Punctuator(p) => TokenDesc::Punct(p),
        TokenKind::Identifier(_) => TokenDesc::Identifier,
        TokenKind::NumericLiteral(_) => TokenDesc::NumericLiteral,
        TokenKind::LineTerminator => TokenDesc::LineTerminator,
    }
}

} // verus!
