//! Statement-execution core of a small interpreted scripting language.
//!
//! Given a line of source already split into lexical tokens, the library
//! classifies each token into an abstract-syntax node, evaluates arithmetic
//! expressions as a strict left-to-right fold, compiles variable
//! declarations and assignments with a type-coercion policy, and drives
//! conditional and loop constructs by re-evaluating their guard expressions
//! against a shared variable table.
//!
//! The character-level lexer and the boolean condition evaluator are
//! external collaborators: functions that consume them here take them as
//! ordinary function parameters.

pub mod base_types;
pub mod base_variables;
pub mod compiler;
pub mod errors;
pub mod eval;
pub mod literals;
pub mod loops;
pub mod node;
pub mod token_type;
pub mod variable_compiler;
