//! A minimal on-chain program: a single `initialize` instruction that logs a
//! greeting carrying the program's address and succeeds unconditionally.
//!
//! The crate models the pieces of the runtime that the instruction touches —
//! the program address, the (empty) accounts struct, and the execution
//! context with its transaction log — as plain values, so that the handler's
//! behaviour can be stated and proved: it always returns success, it appends
//! exactly one log line, that line carries the program's base-58 address, and
//! it modifies no account state.

pub mod id;
pub mod program;
