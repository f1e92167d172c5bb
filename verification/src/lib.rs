//! Constraint model and execution traces for a two-column additive recurrence
//! over a prime field.
//!
//! A [`trace::Trace`] is a rectangular table of field elements. A
//! [`air::FibonacciAir`] records, through a [`builder::ConstraintBuilder`],
//! the equalities that every row window of a valid trace must meet, and
//! [`generate::generate_fibonacci_trace`] produces the one trace that meets
//! them. [`symbolic`] holds the same equalities as data, for a proving
//! backend to read.

pub mod field;
pub mod mersenne31;
pub mod trace;
pub mod generate;
pub mod builder;
pub mod air;
pub mod symbolic;
pub mod laws;
pub mod matrix;
