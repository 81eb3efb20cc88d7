//! Verified core of an interactive console calculator.
//!
//! The calculator reads an operator command, collects two numeric operands,
//! evaluates, and prints the result, looping until `exit`. This crate holds
//! the verified logic of that loop: resolving a line of text to a command,
//! validating and sanitizing operand text, deciding how an operation is
//! evaluated when a denominator is zero, and the session state machine that
//! ties these together. Reading lines, floating-point evaluation, and
//! terminal output live outside the library.

pub mod command;
pub mod eval;
pub mod operand;
pub mod session;
pub mod text;
