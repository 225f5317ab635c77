//! A tree-walking interpreter for Lox: a small dynamically typed,
//! class-based scripting language with first-class functions, closures
//! and single inheritance.
//!
//! Source text is scanned into tokens, parsed into a syntax tree,
//! checked by a resolver pass for structural errors, and then evaluated
//! by a recursive walk.  The language's semantics — scoping, closure
//! capture, class construction, method binding with `this`, `super`
//! dispatch, and the split between static errors (exit 65) and runtime
//! errors (exit 70) — is written down as specification functions in
//! `semantics` and `traverser`, and the executable interpreter is
//! verified against them.  Numbers are IEEE-754 binary64 values carried
//! as bit patterns; their rounding arithmetic and decimal conversions
//! rely on the `rustc_apfloat` software implementation of the format.
pub mod class;
pub mod debuge;
pub mod environment;
pub mod evaluation;
pub mod function;
pub mod grammar;
pub mod interpreter;
pub mod interruption;
pub mod laws;
pub mod numerics;
pub mod parser;
pub mod render;
pub mod runner;
pub mod scanner;
pub mod semantics;
pub mod traverser;
