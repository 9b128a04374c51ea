//! A tree-walking evaluator for asalang, a small imperative language with
//! numbers, strings, booleans, variables, `if` chains and functions.
//!
//! `semantics` states what evaluating a syntax tree means, over mathematical
//! models of trees, values and the evaluator's state; `Interpreter::exec` is
//! proved to compute exactly that, and `laws` proves properties of it.

pub mod ast;
pub mod error;
pub mod evaluator;
pub mod interpreter;
pub mod laws;
pub mod semantics;
pub mod table;
pub mod value;

pub use ast::Node;
pub use error::AsaErrorKind;
pub use interpreter::Interpreter;
pub use value::Value;
