//! Core of an interactive debugger for contract invocations running on an
//! embedded execution host: breakpoints on function names, a call-stack
//! tracker, a pausable execution controller, and read-only inspectors for
//! the host's budget counters and persistent storage.

pub mod breakpoints;
pub mod budget;
pub mod command;
pub mod engine;
pub mod stack;
pub mod state;
pub mod storage;
pub mod text_order;
pub mod ui;
