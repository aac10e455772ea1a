//! The execution core of an interpreter for a typed control-flow-graph
//! intermediate representation, run against a simulated memory.
//!
//! A program is a table of types with their layouts and a table of function
//! bodies ([`ty`], [`mir`]). An evaluation owns a memory, a call stack and the
//! addresses of the constants computed so far ([`interpreter::EvalContext`]);
//! it resolves places to addresses, reads and writes values by the rules of
//! their types, evaluates assignments, casts and built-in operations, and
//! steps through statements and terminators. Every error ends the run.
//!
//! Each operation is defined twice. Its meaning is a function on
//! mathematical pictures of the state: [`memory::MemoryModel`] for the
//! memory, [`interpreter::Env`] for what an evaluation reads besides memory,
//! [`interpreter::state::State`] for the whole state. The executable
//! operation is proved to compute that function. Where an operation fails,
//! its contract fixes the error and everything but the contents of memory.
//!
//! Floating-point numbers are carried as bit patterns. Negation and the
//! absolute value are done on the pattern; any other floating-point
//! arithmetic is answered with [`error::EvalError::UnsupportedFloat`] and
//! left to the caller.
//!
//! The crate is organised leaves first:
//!
//! * [`bytes`]: how integers are laid out as bytes.
//! * [`error`]: every way an evaluation can end early.
//! * [`ty`]: types and the layout facts recorded for them.
//! * [`memory`]: allocations, byte contents, definedness, stored pointers,
//!   freezing.
//! * [`primval`]: primitive values and the arithmetic defined on them.
//! * [`mir`]: the program representation that is evaluated.
//! * [`interpreter`]: frames, places, values, assignments, casts, built-in
//!   operations and the stepping loop.
//! * [`laws`]: what holds across operations, proved from their definitions.
pub mod bytes;
pub mod error;
pub mod ty;
pub mod memory;
pub mod mir;
pub mod primval;
pub mod interpreter;
pub mod laws;
