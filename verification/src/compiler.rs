//! The statement router: given a classified node sequence and the
//! position of a statement head, it picks the compiler that handles the
//! statement and reports a success signal. A failure signal or a typed
//! error means "stop processing further statements in this scope", which
//! the `while` body walk consumes.

use vstd::prelude::*;
use crate::base_variables::{ExecutionContext, Variable};
use crate::errors::CompileError;
use crate::loops::{
    compile_while_loop, evaluate_guard, guard_requires, guard_yields, while_outcome_ok,
};
use crate::node::ASTNode;
use crate::token_type::ParseInfo;
use crate::variable_compiler::{
    assign_outcome, decl_outcome, parse_variable_call, parse_variable_declaration_or_assignment,
};

verus! {

/// Whether the statement at `j` is decided by the external capabilities —
/// a guard evaluation or a function call — so that its success signal is
/// not a function of the node sequence and table alone. Such a statement
/// never touches the variable table.
pub open spec fn stmt_is_external(s: Seq<ASTNode>, j: int) -> bool {
    ||| s[j] is If
    ||| s[j] is For
    ||| s[j] is FunctionCall
}

/// Whether the statement head at `j` opens an assignment: a variable
/// reference directly followed by the assignment operator.
pub open spec fn stmt_is_assignment(s: Seq<ASTNode>, j: int) -> bool {
    s[j] is VariableCall && j + 1 < s.len() && s[j + 1] is AssignmentOperator
}

/// The typed error the statement at `j` produces over table `t`, when its
/// outcome does not depend on the external capabilities: a failing
/// declaration or assignment, or a `while` nested inside a body.
pub open spec fn stmt_error(s: Seq<ASTNode>, j: int, t: Seq<Variable>) -> Option<CompileError> {
    match s[j] {
        ASTNode::Variable(_) => match decl_outcome(s, j, t) {
            Ok(_) => Option::None,
            Err(e) => Some(e),
        },
        ASTNode::VariableCall(_) => if stmt_is_assignment(s, j) {
            match assign_outcome(s, j, t) {
                Ok(_) => Option::None,
                Err(e) => Some(e),
            }
        } else {
            Option::None
        },
        ASTNode::While(_) => Some(CompileError::NestedWhile),
        _ => Option::None,
    }
}

/// How a successful statement at `j` takes table `t` to `t2`: a
/// declaration appends its coerced variable, an assignment updates the
/// entry its target resolves to, and every other statement leaves the
/// table unchanged. A nested `while` never succeeds here.
pub open spec fn stmt_steps_to(s: Seq<ASTNode>, j: int, t: Seq<Variable>, t2: Seq<Variable>) -> bool {
    match s[j] {
        ASTNode::Variable(_) => decl_outcome(s, j, t) matches Ok(d) && {
            &&& t2.len() == t.len() + 1
            &&& t2 == t.push(t2.last())
            &&& t2.last().name == d.0
            &&& t2.last().var_type == d.1
            &&& crate::base_types::stored_value_ok(d.1, d.2, t2.last().value)
        },
        ASTNode::VariableCall(_) => if stmt_is_assignment(s, j) {
            assign_outcome(s, j, t) == Ok::<Seq<Variable>, CompileError>(t2)
        } else {
            t2 == t
        },
        ASTNode::While(_) => false,
        _ => t2 == t,
    }
}

/// Dispatches the statement at `j` inside a loop body, where a nested
/// `while` is refused. On a success signal the table moved as
/// `stmt_steps_to` says; on a failure signal or an error the table is
/// unchanged, and the error is the statement's own unless an external
/// capability decided the statement.
pub fn route_body_statement<F, G, H>(
    expression: &Vec<ASTNode>,
    index: usize,
    ctx: &mut ExecutionContext,
    tokenize: F,
    evaluate_condition: G,
    call_function: H,
) -> (r: Result<bool, CompileError>) where
    F: Fn(String) -> Vec<ParseInfo> + Copy,
    G: Fn(Vec<ASTNode>, Vec<Variable>) -> bool + Copy,
    H: Fn(String) -> bool + Copy,

    requires
        index < expression@.len(),
        guard_requires(tokenize, evaluate_condition),
        forall|name: String| #[trigger] call_requires(call_function, (name,)),
    ensures
        match r {
            Ok(true) => stmt_steps_to(
                expression@,
                index as int,
                old(ctx).variables@,
                final(ctx).variables@,
            ),
            Ok(false) => stmt_is_external(expression@, index as int) && final(ctx).variables@
                == old(ctx).variables@,
            Err(e) => final(ctx).variables@ == old(ctx).variables@ && (stmt_error(
                expression@,
                index as int,
                old(ctx).variables@,
            ) == Some(e) || stmt_is_external(expression@, index as int)),
        },
        expression@[index as int] matches ASTNode::If(n) ==> (r matches Ok(b)
            ==> guard_yields(tokenize, evaluate_condition, n.condition, old(ctx).variables@, b)),
        expression@[index as int] matches ASTNode::For(n) ==> (r matches Ok(b)
            ==> guard_yields(tokenize, evaluate_condition, n.condition, old(ctx).variables@, b)),
        expression@[index as int] matches ASTNode::FunctionCall(f) ==> (r matches Ok(b)
            ==> call_ensures(call_function, (f.name,), b)),
        final(ctx).in_loop == old(ctx).in_loop,
{
    match &expression[index] {
        ASTNode::Variable(_) => match parse_variable_declaration_or_assignment(
            expression,
            index,
            ctx,
        ) {
            Ok(_) => Ok(true),
            Err(e) => Err(e),
        },
        ASTNode::VariableCall(_) => {
            let n = expression.len();
            let is_assign = index + 1 < n && match &expression[index + 1] {
                ASTNode::AssignmentOperator(_) => true,
                _ => false,
            };
            if is_assign {
                match parse_variable_call(expression, index, ctx) {
                    Ok(_) => Ok(true),
                    Err(e) => Err(e),
                }
            } else {
                // A bare variable reference is no statement of its own.
                Ok(true)
            }
        },
        ASTNode::If(n) => match evaluate_guard(&n.condition, &ctx.variables, tokenize,
            evaluate_condition) {
            Ok(b) => Ok(b),
            Err(e) => Err(e),
        },
        ASTNode::For(n) => match evaluate_guard(&n.condition, &ctx.variables, tokenize,
            evaluate_condition) {
            Ok(b) => Ok(b),
            Err(e) => Err(e),
        },
        ASTNode::FunctionCall(f) => {
            let name = f.name.clone();
            let ok = call_function(name);
            Ok(ok)
        },
        ASTNode::While(_) => Err(CompileError::NestedWhile),
        _ => Ok(true),
    }
}

/// The statement router: inspects the node at `index` and dispatches to
/// the declaration compiler, the assignment compiler, the control-flow
/// compiler, or the external function-call handler. A `while` statement
/// runs under the caller's iteration budget `fuel`; every other statement
/// behaves as inside a loop body.
pub fn route_to_parser<F, G, H>(
    expression: &Vec<ASTNode>,
    index: usize,
    ctx: &mut ExecutionContext,
    fuel: u64,
    tokenize: F,
    evaluate_condition: G,
    call_function: H,
) -> (r: Result<bool, CompileError>) where
    F: Fn(String) -> Vec<ParseInfo> + Copy,
    G: Fn(Vec<ASTNode>, Vec<Variable>) -> bool + Copy,
    H: Fn(String) -> bool + Copy,

    requires
        index < expression@.len(),
        guard_requires(tokenize, evaluate_condition),
        forall|name: String| #[trigger] call_requires(call_function, (name,)),
    ensures
        expression@[index as int] matches ASTNode::While(w) ==> while_outcome_ok(
            tokenize,
            evaluate_condition,
            w.condition,
            expression@,
            index + 1,
            old(ctx).variables@,
            final(ctx).variables@,
            fuel,
            r,
        ) && (r == Ok::<bool, CompileError>(true) ==> !final(ctx).in_loop),
        !(expression@[index as int] is While) ==> ({
            &&& match r {
                Ok(true) => stmt_steps_to(
                    expression@,
                    index as int,
                    old(ctx).variables@,
                    final(ctx).variables@,
                ),
                Ok(false) => stmt_is_external(expression@, index as int) && final(ctx).variables@
                    == old(ctx).variables@,
                Err(e) => final(ctx).variables@ == old(ctx).variables@ && (stmt_error(
                    expression@,
                    index as int,
                    old(ctx).variables@,
                ) == Some(e) || stmt_is_external(expression@, index as int)),
            }
            &&& final(ctx).in_loop == old(ctx).in_loop
        }),
        expression@[index as int] matches ASTNode::If(n) ==> (r matches Ok(b)
            ==> guard_yields(tokenize, evaluate_condition, n.condition, old(ctx).variables@, b)),
        expression@[index as int] matches ASTNode::For(n) ==> (r matches Ok(b)
            ==> guard_yields(tokenize, evaluate_condition, n.condition, old(ctx).variables@, b)),
        expression@[index as int] matches ASTNode::FunctionCall(f) ==> (r matches Ok(b)
            ==> call_ensures(call_function, (f.name,), b)),
{
    let is_while = match &expression[index] {
        ASTNode::While(_) => true,
        _ => false,
    };
    if is_while {
        compile_while_loop(expression, index, ctx, fuel, tokenize, evaluate_condition,
            call_function)
    } else {
        route_body_statement(expression, index, ctx, tokenize, evaluate_condition, call_function)
    }
}

} // verus!
