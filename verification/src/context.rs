//! Grammar-context flags.
//!
//! The grammar is context-sensitive: the same syntax is legal or illegal
//! depending on three boolean parameters.  Each production copies the flags
//! it was given into the productions it calls; they are never stored in
//! shared state, so independent parses cannot interfere.

use vstd::prelude::*;

verus! {

/// Whether the bare `in` relational operator is permitted in expressions
/// parsed under this context (suppressed inside `for`-header positions).
#[derive(Clone, Copy, PartialEq, Eq, Structural, Debug)]
pub struct AllowIn(pub bool);

/// Whether `yield` acts as a keyword rather than an identifier.
#[derive(Clone, Copy, PartialEq, Eq, Structural, Debug)]
pub struct AllowYield(pub bool);

/// Whether `await` acts as a keyword rather than an identifier.
#[derive(Clone, Copy, PartialEq, Eq, Structural, Debug)]
pub struct AllowAwait(pub bool);

} // verus!
