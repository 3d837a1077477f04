//! A fixed-size worker pool described as a verified state machine, and the
//! naming and column rules of the tick-file conversion jobs that run on it.
//!
//! The pool's decisions (which job a worker takes, when a worker stops, what
//! `execute` and `shutdown` answer) live here; the threads that carry them
//! out are driven by the caller.
pub mod columns;
pub mod naming;
pub mod pool;
