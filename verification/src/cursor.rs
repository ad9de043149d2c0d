//! The pull-based token cursor.
//!
//! The cursor is a position-tracking view over a fully materialized token
//! sequence.  It supports non-destructive lookahead (`peek`), consumption
//! (`next`), exactly one step of pushback after a consumption (`back`), and
//! the automatic-statement-termination test (`peek_semicolon`).
//!
//! Consuming skips line-terminator entries; the termination test reads the
//! raw entry at the current position, which is where a line terminator
//! observed between the previous and the next token is found.

use vstd::prelude::*;

use crate::ast::{Punctuator, Token, TokenKind};
use crate::error::{Label, ParseError, SpecError, TokenDesc, desc_of, spec_desc_of};

verus! {

/// True of the stream entries the cursor skips when consuming: line
/// terminators.
pub open spec fn is_line_term(t: Token) -> bool {
    t.kind is LineTerminator
}

/// The first index at or after `pos` whose token is not a line terminator,
/// or the length of the sequence if only line terminators remain.
pub open spec fn skip_line_terms(toks: Seq<Token>, pos: int) -> int
    decreases toks.len() - pos when 0 <= pos <= toks.len()
{
    if pos == toks.len() {
        pos
    } else if is_line_term(toks[pos]) {
        skip_line_terms(toks, pos + 1)
    } else {
        pos
    }
}

/// Bounds of [`skip_line_terms`]: it never moves backwards, never leaves the
/// sequence, and lands on a non-line-terminator token when one remains.
pub proof fn lemma_skip_line_terms(toks: Seq<Token>, pos: int)
    requires
        0 <= pos <= toks.len(),
    ensures
        pos <= skip_line_terms(toks, pos) <= toks.len(),
        skip_line_terms(toks, pos) < toks.len() ==> !is_line_term(toks[skip_line_terms(toks, pos)]),
    decreases toks.len() - pos,
{
    if pos < toks.len() && is_line_term(toks[pos]) {
        lemma_skip_line_terms(toks, pos + 1);
    }
}

/// What one consumption observes and does: the token consumed and the
/// position after it, or `None` (and no movement) when only line
/// terminators remain.
pub open spec fn spec_next(toks: Seq<Token>, pos: int) -> Option<(Token, int)> {
    let i = skip_line_terms(toks, pos);
    if 0 <= i < toks.len() {
        Some((toks[i], i + 1))
    } else {
        None
    }
}

/// The token `offset` non-line-terminator entries ahead of `pos`, if the
/// stream reaches that far.
pub open spec fn spec_peek(toks: Seq<Token>, pos: int, offset: int) -> Option<Token>
    decreases offset when offset >= 0
{
    let i = skip_line_terms(toks, pos);
    if 0 <= i < toks.len() {
        if offset == 0 {
            Some(toks[i])
        } else {
            spec_peek(toks, i + 1, offset - 1)
        }
    } else {
        None
    }
}

/// What the automatic-termination test answers at `pos`: whether the current
/// statement may end here, and the raw entry at `pos` if any.  A statement
/// may end before an explicit semicolon, before a closing brace, at the end
/// of the stream, or — unless `strict` — after a line terminator.
pub open spec fn spec_peek_semicolon(toks: Seq<Token>, pos: int, strict: bool) -> (bool, Option<Token>) {
    if !(0 <= pos < toks.len()) {
        (true, None)
    } else {
        let t = toks[pos];
        if t.kind == TokenKind::Punctuator(Punctuator::Semicolon) {
            (true, Some(t))
        } else if t.kind == TokenKind::Punctuator(Punctuator::CloseBlock) {
            (true, Some(t))
        } else if t.kind is LineTerminator {
            (!strict, Some(t))
        } else {
            (false, Some(t))
        }
    }
}

/// What `expect` decides: consume the next token when it has exactly `kind`,
/// otherwise report it (or the end of the stream) under `label`.
pub open spec fn spec_expect(toks: Seq<Token>, pos: int, kind: TokenKind, label: Label) -> (Result<(), SpecError>, int) {
    match spec_next(toks, pos) {
        Some((t, p)) => if t.kind == kind {
            (Ok(()), p)
        } else {
            (Err(SpecError::Expected { expected: seq![spec_desc_of(kind)], found: t, label }), p)
        },
        None => (Err(SpecError::AbruptEnd), pos),
    }
}

/// What `expect_semicolon` decides: terminate the statement here per the
/// automatic-termination rule, consuming an explicit semicolon and nothing
/// else; when termination is impossible, report the offending token.
pub open spec fn spec_expect_semicolon(toks: Seq<Token>, pos: int, strict: bool, label: Label) -> (Result<(), SpecError>, int) {
    if !(0 <= pos < toks.len()) {
        (Ok(()), pos)
    } else {
        let t = toks[pos];
        if t.kind == TokenKind::Punctuator(Punctuator::Semicolon) {
            (Ok(()), pos + 1)
        } else if t.kind == TokenKind::Punctuator(Punctuator::CloseBlock) {
            (Ok(()), pos)
        } else if t.kind is LineTerminator {
            if strict {
                (Err(SpecError::Expected { expected: seq![TokenDesc::Punct(Punctuator::Semicolon)], found: t, label }), pos)
            } else {
                (Ok(()), pos)
            }
        } else {
            (Err(SpecError::Expected { expected: seq![TokenDesc::Punct(Punctuator::Semicolon)], found: t, label }), pos)
        }
    }
}

/// Pushback then re-consumption is idempotent: when a consumption at `pos`
/// returned token `t` leaving the cursor at `p`, consuming again after the
/// pushback (which moves the cursor to `p - 1`) returns the same token `t`
/// and leaves the cursor at the same position `p`.
pub proof fn lemma_back_next_idempotent(toks: Seq<Token>, pos: int, t: Token, p: int)
    requires
        0 <= pos <= toks.len(),
        spec_next(toks, pos) == Some((t, p)),
    ensures
        spec_next(toks, p - 1) == Some((t, p)),
{
    lemma_skip_line_terms(toks, pos);
}

/// The pull-based, finite-lookahead view over the token stream.
pub struct Cursor {
    tokens: Vec<Token>,
    pos: usize,
    back_ok: bool,
}

impl Cursor {
    /// The underlying token sequence, line terminators included.
    pub closed spec fn toks(&self) -> Seq<Token> {
        self.tokens@
    }

    /// The current position: an index into the raw token sequence.
    pub closed spec fn pos(&self) -> int {
        self.pos as int
    }

    /// Whether a pushback is currently permitted: true exactly between a
    /// successful consumption and the next state change.
    pub closed spec fn can_back(&self) -> bool {
        self.back_ok
    }

    /// Well-formedness: the position stays within the sequence, and while a
    /// pushback is permitted the entry just behind the position is the
    /// non-line-terminator token that was just consumed.
    pub open spec fn wf(&self) -> bool {
        &&& 0 <= self.pos() <= self.toks().len()
        &&& (self.can_back() ==> 1 <= self.pos() && !is_line_term(self.toks()[self.pos() - 1]))
    }

    /// Creates a cursor at the start of `tokens`.
    pub fn new(tokens: Vec<Token>) -> (c: Cursor)
        ensures
            c.wf(),
            c.toks() == tokens@,
            c.pos() == 0,
            !c.can_back(),
    {
        Cursor { tokens, pos: 0, back_ok: false }
    }

    /// First non-line-terminator index at or after `from`.
    fn skip_from(&self, from: usize) -> (r: usize)
        requires
            from <= self.toks().len(),
        ensures
            r == skip_line_terms(self.toks(), from as int),
            from <= r <= self.toks().len(),
            r < self.toks().len() ==> !is_line_term(self.toks()[r as int]),
        decreases self.toks().len() - from,
    {
        if from < self.tokens.len() {
            let t = self.tokens[from];
            match t.kind {
                TokenKind::LineTerminator => self.skip_from(from + 1),
                _ => from,
            }
        } else {
            from
        }
    }

    /// Returns the token `offset` (non-line-terminator) entries ahead of the
    /// current position without consuming anything.  Peeking has no side
    /// effects: repeated peeks at one offset return identical results.
    pub fn peek(&self, offset: usize) -> (r: Option<Token>)
        requires
            self.wf(),
        ensures
            r == spec_peek(self.toks(), self.pos(), offset as int),
    {
        self.peek_from(self.pos, offset)
    }

    fn peek_from(&self, from: usize, offset: usize) -> (r: Option<Token>)
        requires
            from <= self.toks().len(),
        ensures
            r == spec_peek(self.toks(), from as int, offset as int),
        decreases offset,
    {
        let i = self.skip_from(from);
        if i < self.tokens.len() {
            if offset == 0 {
                Some(self.tokens[i])
            } else {
                self.peek_from(i + 1, offset - 1)
            }
        } else {
            None
        }
    }

    /// Consumes and returns the next token, skipping line terminators, or
    /// returns `None` at the end of the stream without observable change.
    pub fn next(&mut self) -> (r: Option<Token>)
        requires
            old(self).wf(),
        ensures
            final(self).wf(),
            final(self).toks() == old(self).toks(),
            match spec_next(old(self).toks(), old(self).pos()) {
                Some((t, p)) => {
                    &&& r == Some(t)
                    &&& final(self).pos() == p
                    &&& final(self).can_back()
                },
                None => {
                    &&& r == Option::<Token>::None
                    &&& final(self).pos() == old(self).pos()
                    &&& !final(self).can_back()
                },
            },
    {
        let i = self.skip_from(self.pos);
        if i < self.tokens.len() {
            let t = self.tokens[i];
            self.pos = i + 1;
            self.back_ok = true;
            Some(t)
        } else {
            self.back_ok = false;
            None
        }
    }

    /// Undoes exactly the most recent consumption, re-exposing the token it
    /// returned.  Calling it without a fresh preceding consumption violates
    /// the precondition; a well-typed verified caller cannot do so.
    pub fn back(&mut self)
        requires
            old(self).wf(),
            old(self).can_back(),
        ensures
            final(self).wf(),
            final(self).toks() == old(self).toks(),
            final(self).pos() == old(self).pos() - 1,
            !final(self).can_back(),
            spec_next(old(self).toks(), old(self).pos() - 1)
                == Some((old(self).toks()[old(self).pos() - 1], old(self).pos())),
    {
        self.pos = self.pos - 1;
        self.back_ok = false;
    }

    /// Answers the automatic-termination question: whether the current
    /// statement may terminate here, returning the raw token at the current
    /// position when there is one — the conflicting token when termination
    /// fails, or the explicit semicolon left for the caller to consume.
    pub fn peek_semicolon(&self, strict: bool) -> (r: (bool, Option<Token>))
        requires
            self.wf(),
        ensures
            r == spec_peek_semicolon(self.toks(), self.pos(), strict),
    {
        if self.pos < self.tokens.len() {
            let t = self.tokens[self.pos];
            match t.kind {
                TokenKind::Punctuator(Punctuator::Semicolon) => (true, Some(t)),
                TokenKind::Punctuator(Punctuator::CloseBlock) => (true, Some(t)),
                TokenKind::LineTerminator => (!strict, Some(t)),
                _ => (false, Some(t)),
            }
        } else {
            (true, None)
        }
    }

    /// Consumes the next token when it has exactly `kind`; otherwise reports
    /// an expected-but-found diagnostic (or abrupt end) naming `label`.
    pub fn expect(&mut self, kind: TokenKind, label: Label) -> (r: Result<(), ParseError>)
        requires
            old(self).wf(),
        ensures
            final(self).wf(),
            final(self).toks() == old(self).toks(),
            ({
                let (sr, sp) = spec_expect(old(self).toks(), old(self).pos(), kind, label);
                &&& final(self).pos() == sp
                &&& match (r, sr) {
                    (Ok(()), Ok(())) => true,
                    (Err(e), Err(se)) => e@ == se,
                    _ => false,
                }
            }),
    {
        match self.next() {
            Some(t) => {
                if t.kind == kind {
                    Ok(())
                } else {
                    let ds = vec![desc_of(kind)];
                    proof {
                        assert(ds@ =~= seq![spec_desc_of(kind)]);
                    }
                    Err(ParseError::expected(ds, t, label))
                }
            },
            None => Err(ParseError::AbruptEnd),
        }
    }

    /// Terminates the current statement per the automatic-termination rule,
    /// consuming an explicit semicolon and nothing else; fails with an
    /// expected-semicolon diagnostic naming `label` when no termination is
    /// possible here.
    pub fn expect_semicolon(&mut self, strict: bool, label: Label) -> (r: Result<(), ParseError>)
        requires
            old(self).wf(),
        ensures
            final(self).wf(),
            final(self).toks() == old(self).toks(),
            ({
                let (sr, sp) = spec_expect_semicolon(old(self).toks(), old(self).pos(), strict, label);
                &&& final(self).pos() == sp
                &&& match (r, sr) {
                    (Ok(()), Ok(())) => true,
                    (Err(e), Err(se)) => e@ == se,
                    _ => false,
                }
            }),
    {
        let (can_end, tk) = self.peek_semicolon(strict);
        if can_end {
            match tk {
                Some(t) => {
                    if t.kind == TokenKind::Punctuator(Punctuator::Semicolon) {
                        let _ = self.next();
                        proof {
                            assert(skip_line_terms(old(self).toks(), old(self).pos()) == old(self).pos());
                        }
                        Ok(())
                    } else {
                        Ok(())
                    }
                },
                None => Ok(()),
            }
        } else {
            match tk {
                Some(t) => {
                    let ds = vec![TokenDesc::Punct(Punctuator::Semicolon)];
                    proof {
                        assert(ds@ =~= seq![TokenDesc::Punct(Punctuator::Semicolon)]);
                    }
                    Err(ParseError::expected(ds, t, label))
                },
                None => unreached(),
            }
        }
    }
}

} // verus!
