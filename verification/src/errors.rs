//! The error taxonomy of the core. A coercion mismatch is the only
//! recoverable condition and is reported as a warning flag, not here;
//! every error below is fatal for the run and is propagated as a typed
//! result up to the top-level driver, which decides exit behaviour.

use vstd::prelude::*;

verus! {

/// Failures of the token-to-node classification step.
#[derive(Debug, Clone, Copy, PartialEq, Eq, Structural)]
pub enum ClassificationError {
    /// The token kind has no node mapping.
    Unrecognized,
    /// The token's text cannot be read as a literal of its kind.
    MalformedLiteral,
}

/// Failures raised inside the expression evaluator.
#[derive(Debug, Clone, Copy, PartialEq, Eq, Structural)]
pub enum EvalError {
    /// The right operand of `/` is zero.
    DivisionByZero,
    /// An operator symbol outside `+ - * /`.
    UnrecognizedOperator,
    /// Two operands in a row with no operator between them.
    MissingOperator,
    /// An arithmetic operator applied to a non-integer operand.
    NonIntegerOperand,
    /// A variable reference that no table entry answers.
    UnknownVariable,
    /// A node kind that has no meaning in an expression position.
    UnhandledNode,
    /// An intermediate arithmetic result outside the `i32` range.
    Overflow,
}

/// Failures of the statement compilers and the statement router.
#[derive(Debug, Clone, Copy, PartialEq, Eq, Structural)]
pub enum CompileError {
    /// A guard token could not be classified.
    Classification(ClassificationError),
    /// The expression evaluator failed.
    Eval(EvalError),
    /// A declaration without name, type, or assignment operator.
    IncompleteDeclaration,
    /// A declared type tag outside `int float string bool char`.
    UnknownType,
    /// A node kind that has no meaning where a statement's parser met it.
    UnhandledNode,
    /// An assignment whose target name no table entry answers.
    UnknownAssignTarget,
    /// A `while` header inside the body of another `while`.
    NestedWhile,
    /// The caller's iteration budget for a `while` loop ran out.
    IterationLimit,
}

} // verus!
