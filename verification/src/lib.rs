//! A brachistochrone boundary-value solver.
//!
//! Given two endpoints in a vertical plane (gravity along +y), the solver
//! finds the cycloid arc of fastest descent between them and discretizes it
//! into an ordered point sequence. A transcendental equation is solved by
//! Newton–Raphson over a tanh-compressed domain, followed by closed-form
//! geometric reconstruction.
//!
//! The library is verified and therefore holds no floating-point type: every
//! scalar travels as the raw bit pattern of an IEEE 754 binary64 value, and
//! every floating-point *operation* (add, sin, tanh, ...) is delegated to the
//! embedding through the request/response protocol of [`machine::Solver`].
//! All decisions — endpoint normalization, tolerance and finiteness checks,
//! the iteration cap, the error taxonomy, and the structure of the sampled
//! point sequence — are made inside the library and carry verified contracts.

pub mod bits;
pub mod machine;
