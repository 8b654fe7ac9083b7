//! Safe, verified lifecycle and cursor rules for a handle-based embedded
//! database engine, and a reader of Quicken data files built on them.
//!
//! The engine itself is reached through native calls that this library does
//! not make: each operation is split into the handle it asks the engine to act
//! on, and the rule that turns the engine's status code into the next state
//! and a typed result.

pub mod sqlite3;
pub mod quicken;
