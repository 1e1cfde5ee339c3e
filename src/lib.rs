//! Verified decision and layout logic for a small three-dimensional vector toolkit.
//!
//! The vector arithmetic itself works on `f64` components and lives with the program;
//! this crate holds the parts that are independent of floating point: choosing the
//! longest vector of a collection from order-preserving magnitude keys, and the
//! textual layout of a vector's rendered components.
pub mod longest;
pub mod render;
