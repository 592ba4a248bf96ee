//! Evaluation core of a pure, typed, total configuration language: typed
//! expressions, lazily reduced values, a normalizer to weak-head and full
//! normal form, built-in functions, and the algebraic simplifications of
//! every binary operator.
//!
//! Reduction of well-typed terms always terminates, but the termination
//! argument lies outside structural recursion, so every reducing operation
//! takes a fuel bound and returns `None` when the bound runs out. With
//! enough fuel the result is the unique normal form.

pub mod double;
pub mod equality;
pub mod error;
pub mod laws;
pub mod maps;
pub mod normalize;
pub mod show;
pub mod syntax;
pub mod varops;
pub mod tyexpr;
pub mod value;
