//! Symbolic random variables: closed-form distributions, the expression tree
//! that combines them, and the algebraic simplifier that folds an operator
//! application into a single leaf whenever a closed form exists.
//!
//! Numbers are IEEE-754 doubles carried by their encoding (`Scalar`). The
//! library compares and classifies them itself; arithmetic on them is written
//! down as a `Term`, a formula that the host program evaluates.

pub mod distributions;
pub mod functions;
pub mod interface;
pub mod operations;
pub mod sampling;
pub mod scalar;
pub mod term;
pub mod utils;
