//! Tests of the control-flow compiler: guard evaluation through the
//! external capabilities, the while loop, and the statement router.

use std::cell::Cell;

use jist::base_types::{BaseTypes, TypeTag};
use jist::base_variables::{ExecutionContext, Variable};
use jist::compiler::{route_body_statement, route_to_parser};
use jist::errors::{ClassificationError, CompileError};
use jist::loops::{compile_for_loop, compile_while_loop, evaluate_guard};
use jist::node::{
    ASTNode, AssignmentOperatorNode, IntNode, OperatorNode, StringNode, VariableCallNode,
    VariableNode, VariableTypeNode, WhileNode,
};
use jist::token_type::{ParseInfo, TokenTypes};

fn int_node(v: i32) -> ASTNode {
    ASTNode::Int(IntNode::new(v))
}

fn op(sym: &str) -> ASTNode {
    ASTNode::Operator(OperatorNode::new(sym.to_string()))
}

fn var_ref(n: &str) -> ASTNode {
    ASTNode::VariableCall(VariableCallNode::new(n.to_string()))
}

fn assign() -> ASTNode {
    ASTNode::AssignmentOperator(AssignmentOperatorNode::new("=".to_string()))
}

fn while_header(cond: &str) -> ASTNode {
    ASTNode::While(WhileNode::new(cond.to_string()))
}

/// A minimal stand-in for the external lexer: whitespace-separated words,
/// digits to integer tokens, comparison symbols to operator tokens, and
/// anything else to a variable reference.
fn toy_tokenize(text: String) -> Vec<ParseInfo> {
    text.split_whitespace()
        .map(|w| {
            let kind = if w.chars().next().map(|c| c.is_ascii_digit()).unwrap_or(false) {
                TokenTypes::Int
            } else if matches!(w, ">" | "<" | ">=" | "<=" | "==") {
                TokenTypes::Operator
            } else {
                TokenTypes::VariableCall
            };
            ParseInfo::new(kind, w.to_string())
        })
        .collect()
}

/// A minimal stand-in for the external condition evaluator: expects a
/// comparison `name <op> literal` over the table snapshot.
fn toy_condition(ns: Vec<ASTNode>, vs: Vec<Variable>) -> bool {
    if ns.len() != 3 {
        return false;
    }
    let name = match &ns[0] {
        ASTNode::VariableCall(v) => v.name.clone(),
        _ => return false,
    };
    let sym = match &ns[1] {
        ASTNode::Operator(o) => o.operator.clone(),
        _ => return false,
    };
    let rhs = match &ns[2] {
        ASTNode::Int(n) => n.value,
        _ => return false,
    };
    let lhs = match vs.iter().rev().find(|v| v.name == name) {
        Some(v) => match v.value {
            BaseTypes::Int(i) => i,
            _ => return false,
        },
        None => return false,
    };
    match sym.as_str() {
        ">" => lhs > rhs,
        "<" => lhs < rhs,
        ">=" => lhs >= rhs,
        "<=" => lhs <= rhs,
        "==" => lhs == rhs,
        _ => false,
    }
}

fn no_calls(_name: String) -> bool {
    true
}

fn counter_context(start: i32) -> ExecutionContext {
    let mut ctx = ExecutionContext::new();
    ctx.declare(Variable {
        name: "count".to_string(),
        value: BaseTypes::Int(start),
        var_type: TypeTag::Int,
    });
    ctx
}

#[test]
fn while_loop_decrements_counter_to_zero() {
    // Guard `count > 0`, body `count = count - 1`: the body runs exactly
    // three times from count = 3, and the table shows count = 0 after.
    let mut ctx = counter_context(3);
    let expr = vec![
        while_header("count > 0"),
        var_ref("count"),
        assign(),
        var_ref("count"),
        op("-"),
        int_node(1),
        ASTNode::SemiColon,
    ];
    let guard_evals = Cell::new(0u32);
    let counting_condition = |ns: Vec<ASTNode>, vs: Vec<Variable>| -> bool {
        guard_evals.set(guard_evals.get() + 1);
        toy_condition(ns, vs)
    };
    let r = compile_while_loop(&expr, 0, &mut ctx, 1000, toy_tokenize, counting_condition,
        no_calls);
    assert_eq!(r, Ok(true));
    assert_eq!(ctx.variables.len(), 1);
    assert_eq!(ctx.variables[0].value, BaseTypes::Int(0));
    // Three passes ran, then the fourth guard evaluation exited cleanly.
    assert_eq!(guard_evals.get(), 4);
    assert!(!ctx.in_loop, "the loop-execution flag is cleared on a clean exit");
}

#[test]
fn while_loop_never_entered_succeeds() {
    let mut ctx = counter_context(0);
    let expr = vec![
        while_header("count > 0"),
        var_ref("count"),
        assign(),
        var_ref("count"),
        op("-"),
        int_node(1),
        ASTNode::SemiColon,
    ];
    let r = compile_while_loop(&expr, 0, &mut ctx, 1000, toy_tokenize, toy_condition, no_calls);
    assert_eq!(r, Ok(true));
    assert_eq!(ctx.variables[0].value, BaseTypes::Int(0));
}

#[test]
fn failing_body_statement_aborts_the_loop_at_once() {
    // The first body statement assigns to an unknown name and fails; the
    // declaration after it must never run, and the failure reaches the
    // caller.
    let mut ctx = counter_context(3);
    let expr = vec![
        while_header("count > 0"),
        var_ref("missing"),
        assign(),
        int_node(1),
        ASTNode::SemiColon,
        ASTNode::Variable(VariableNode::new("later".to_string())),
        ASTNode::VariableType(VariableTypeNode::new("string".to_string())),
        assign(),
        ASTNode::String(StringNode::new("x".to_string())),
    ];
    let r = compile_while_loop(&expr, 0, &mut ctx, 1000, toy_tokenize, toy_condition, no_calls);
    assert_eq!(r, Err(CompileError::UnknownAssignTarget));
    assert_eq!(ctx.variables.len(), 1, "the statement after the failing one did not run");
    assert_eq!(ctx.variables[0].name, "count");
    assert_eq!(ctx.variables[0].value, BaseTypes::Int(3), "the failing pass left no mutation");
}

#[test]
fn statements_before_the_failing_one_keep_their_effects() {
    // The body decrements the counter and then fails: the decrement of
    // the aborted pass stays, nothing after the failure runs.
    let mut ctx = counter_context(3);
    let expr = vec![
        while_header("count > 0"),
        var_ref("count"),
        assign(),
        var_ref("count"),
        op("-"),
        int_node(1),
        ASTNode::SemiColon,
        var_ref("missing"),
        assign(),
        int_node(1),
        ASTNode::SemiColon,
    ];
    let r = compile_while_loop(&expr, 0, &mut ctx, 1000, toy_tokenize, toy_condition, no_calls);
    assert_eq!(r, Err(CompileError::UnknownAssignTarget));
    assert_eq!(ctx.variables[0].value, BaseTypes::Int(2), "one decrement ran before the failure");
}

#[test]
fn iteration_budget_stops_a_runaway_loop() {
    let mut ctx = counter_context(5);
    // The guard never becomes false and the body changes nothing.
    let expr = vec![while_header("count > 0"), ASTNode::SemiColon];
    let r = compile_while_loop(&expr, 0, &mut ctx, 7, toy_tokenize, toy_condition, no_calls);
    assert_eq!(r, Err(CompileError::IterationLimit));
}

#[test]
fn guard_classification_failure_is_fatal() {
    let mut ctx = counter_context(1);
    let bad_lexer = |_text: String| -> Vec<ParseInfo> {
        vec![ParseInfo::new(TokenTypes::Int, "oops".to_string())]
    };
    let expr = vec![while_header("count > 0"), ASTNode::SemiColon];
    let r = compile_while_loop(&expr, 0, &mut ctx, 10, bad_lexer, toy_condition, no_calls);
    assert_eq!(
        r,
        Err(CompileError::Classification(ClassificationError::MalformedLiteral))
    );
}

#[test]
fn nested_while_is_refused() {
    let mut ctx = counter_context(2);
    let expr = vec![while_header("count > 0"), while_header("count > 1")];
    let r = compile_while_loop(&expr, 0, &mut ctx, 10, toy_tokenize, toy_condition, no_calls);
    assert_eq!(r, Err(CompileError::NestedWhile));
}

#[test]
fn evaluate_guard_runs_the_pipeline_once() {
    let ctx = counter_context(2);
    let yes = evaluate_guard(
        &"count > 1".to_string(),
        &ctx.variables,
        toy_tokenize,
        toy_condition,
    );
    assert_eq!(yes, Ok(true));
    let no = evaluate_guard(
        &"count > 5".to_string(),
        &ctx.variables,
        toy_tokenize,
        toy_condition,
    );
    assert_eq!(no, Ok(false));
}

#[test]
fn for_construct_evaluates_its_guard_exactly_once() {
    let ctx = counter_context(2);
    let evals = Cell::new(0u32);
    let counting = |ns: Vec<ASTNode>, vs: Vec<Variable>| -> bool {
        evals.set(evals.get() + 1);
        toy_condition(ns, vs)
    };
    let expr = vec![ASTNode::For(jist::node::ForNode::new("count > 0".to_string()))];
    let r = compile_for_loop(&expr, &ctx.variables, toy_tokenize, counting);
    assert_eq!(r, Ok(true));
    assert_eq!(evals.get(), 1, "a for construct does not iterate");
    let none = compile_for_loop(&vec![int_node(1)], &ctx.variables, toy_tokenize, counting);
    assert_eq!(none, Ok(true), "a list without a for header succeeds");
}

#[test]
fn router_dispatches_declarations() {
    let mut ctx = ExecutionContext::new();
    let stmt = vec![
        ASTNode::Variable(VariableNode::new("x".to_string())),
        ASTNode::VariableType(VariableTypeNode::new("string".to_string())),
        assign(),
        ASTNode::String(StringNode::new("v".to_string())),
    ];
    let r = route_to_parser(&stmt, 0, &mut ctx, 10, toy_tokenize, toy_condition, no_calls);
    assert_eq!(r, Ok(true));
    assert_eq!(ctx.variables.len(), 1);
    assert_eq!(ctx.variables[0].name, "x");
}

#[test]
fn router_dispatches_while_statements() {
    let mut ctx = counter_context(2);
    let expr = vec![
        while_header("count > 0"),
        var_ref("count"),
        assign(),
        var_ref("count"),
        op("-"),
        int_node(1),
        ASTNode::SemiColon,
    ];
    let r = route_to_parser(&expr, 0, &mut ctx, 100, toy_tokenize, toy_condition, no_calls);
    assert_eq!(r, Ok(true));
    assert_eq!(ctx.variables[0].value, BaseTypes::Int(0));
}

#[test]
fn router_hands_function_calls_to_the_external_handler() {
    let mut ctx = ExecutionContext::new();
    let called = Cell::new(false);
    let handler = |name: String| -> bool {
        called.set(true);
        name == "print"
    };
    let stmt = vec![ASTNode::FunctionCall(jist::node::FunctionCallNode::new(
        "print".to_string(),
    ))];
    let r = route_body_statement(&stmt, 0, &mut ctx, toy_tokenize, toy_condition, handler);
    assert_eq!(r, Ok(true));
    assert!(called.get());
    let failing = |_name: String| -> bool { false };
    let r2 = route_body_statement(&stmt, 0, &mut ctx, toy_tokenize, toy_condition, failing);
    assert_eq!(r2, Ok(false), "a failure signal propagates");
}

#[test]
fn router_skips_filler_nodes() {
    let mut ctx = ExecutionContext::new();
    let stmt = vec![ASTNode::SemiColon];
    let r = route_body_statement(&stmt, 0, &mut ctx, toy_tokenize, toy_condition, no_calls);
    assert_eq!(r, Ok(true));
    assert_eq!(ctx.variables.len(), 0);
}

#[test]
fn if_statement_returns_its_guard_value() {
    let mut ctx = counter_context(1);
    let stmt = vec![ASTNode::If(jist::node::IfNode::new("count > 0".to_string()))];
    let r = route_body_statement(&stmt, 0, &mut ctx, toy_tokenize, toy_condition, no_calls);
    assert_eq!(r, Ok(true));
    let stmt2 = vec![ASTNode::If(jist::node::IfNode::new("count > 9".to_string()))];
    let r2 = route_body_statement(&stmt2, 0, &mut ctx, toy_tokenize, toy_condition, no_calls);
    assert_eq!(r2, Ok(false));
}
