//! The native side of a small desktop command bridge: a greeting, a
//! number-guessing judge and the decoding of a spawned program's output.
//! Each command is a plain function from its arguments to its result.
pub mod commands;
pub mod demo;
pub mod terminal;
