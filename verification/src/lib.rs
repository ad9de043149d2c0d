//! Recursive-descent syntactic front end for a C-family scripting language.
//!
//! The crate turns an already-lexed token sequence into abstract syntax tree
//! fragments.  Its pieces are:
//!
//! - [`ast`]: tokens, source positions and the AST node shapes;
//! - [`cursor`]: the pull-based token cursor with one-token pushback and the
//!   automatic-statement-termination test;
//! - [`context`]: the three grammar-context flags threaded through every
//!   production;
//! - [`error`]: positioned parse diagnostics;
//! - [`expression`]: the exponentiation level of the expression-precedence
//!   chain together with the productions it delegates to;
//! - [`statement`]: the `var` statement and its declaration-list production.
//!
//! Every production is specified against a mathematical model of the token
//! stream: a `spec` parse function on `Seq<Token>` pins down both the result
//! and the cursor movement of the corresponding executable parser.

pub mod ast;
pub mod context;
pub mod cursor;
pub mod error;
pub mod expression;
pub mod statement;
