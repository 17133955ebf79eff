//! The program's instructions: the accounts each one takes, the checks on them,
//! and the decisions of its handler.

pub mod initialize;
pub mod deposit;
pub mod release;
pub mod cancel;
