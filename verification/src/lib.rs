//! The core of a terminal emulator: the character grid and cursor, the
//! interpreter that applies control sequences to them, and the decision
//! logic of the byte pump and of session start-up.

pub mod bridge;
pub mod display;
pub mod grid;
pub mod interpreter;
pub mod launch;
pub mod laws;
pub mod lines;
pub mod operation;
pub mod session;
pub mod terminal;
