//! A fixed-step solver for the telegrapher's equations on a lossy transmission
//! line, verified with Verus.
//!
//! Samples and parameters are IEEE 754 binary64 numbers, carried as their
//! 64-bit words. The operations that round (sum, difference, product,
//! quotient, remainder, sine) are supplied by the caller as a kernel, and a
//! NaN that the kernel returns is settled to one word. What is exact on
//! words (the order of two numbers, negation, the number of a count)
//! and everything above the arithmetic (the update formulas, the order in
//! which cells are written, the source and termination models, validation and
//! the state's lifecycle) is proved here against a mathematical model.

pub mod binary64;
pub mod kernel;
pub mod model;
pub mod coefficients;
pub mod source;
pub mod state;
pub mod step;
pub mod settings;
pub mod engine;
pub mod laws;
