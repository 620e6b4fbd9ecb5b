//! Tests of the expression evaluator: the left-to-right fold, parenthesis
//! grouping, and its fatal conditions.

use jist::base_types::BaseTypes;
use jist::base_variables::Variable;
use jist::errors::EvalError;
use jist::eval::{eval_nodes, operation, parse_operator};
use jist::node::{ASTNode, IntNode, OperatorNode};

fn int_node(v: i32) -> ASTNode {
    ASTNode::Int(IntNode::new(v))
}

fn op(sym: &str) -> ASTNode {
    ASTNode::Operator(OperatorNode::new(sym.to_string()))
}

fn eval(nodes: Vec<ASTNode>) -> Result<BaseTypes, EvalError> {
    eval_nodes(&nodes, 0, &Vec::new())
}

#[test]
fn fold_is_left_to_right_without_precedence() {
    // 1 + 2 * 3 evaluates to 9, computed as (1 + 2) * 3, not 7.
    let r = eval(vec![int_node(1), op("+"), int_node(2), op("*"), int_node(3)]);
    assert_eq!(r, Ok(BaseTypes::Int(9)));
}

#[test]
fn fold_runs_longer_chains() {
    // ((((10 - 2) * 3) + 6) / 5) == 6
    let r = eval(vec![
        int_node(10),
        op("-"),
        int_node(2),
        op("*"),
        int_node(3),
        op("+"),
        int_node(6),
        op("/"),
        int_node(5),
    ]);
    assert_eq!(r, Ok(BaseTypes::Int(6)));
}

#[test]
fn parenthesis_group_yields_one_operand() {
    // (2 + 3) * 4 evaluates to 20.
    let r = eval(vec![
        ASTNode::LeftParenthesis,
        int_node(2),
        op("+"),
        int_node(3),
        ASTNode::RightParenthesis,
        op("*"),
        int_node(4),
    ]);
    assert_eq!(r, Ok(BaseTypes::Int(20)));
}

#[test]
fn parentheses_nest() {
    // 2 * (3 + (4 - 1)) == 12
    let r = eval(vec![
        int_node(2),
        op("*"),
        ASTNode::LeftParenthesis,
        int_node(3),
        op("+"),
        ASTNode::LeftParenthesis,
        int_node(4),
        op("-"),
        int_node(1),
        ASTNode::RightParenthesis,
        ASTNode::RightParenthesis,
    ]);
    assert_eq!(r, Ok(BaseTypes::Int(12)));
}

#[test]
fn bare_literal_is_a_valid_expression() {
    assert_eq!(eval(vec![int_node(7)]), Ok(BaseTypes::Int(7)));
}

#[test]
fn empty_expression_yields_zero() {
    assert_eq!(eval(vec![]), Ok(BaseTypes::Int(0)));
}

#[test]
fn semicolon_ends_the_fold() {
    let r = eval(vec![int_node(1), op("+"), int_node(2), ASTNode::SemiColon, op("*"), int_node(9)]);
    assert_eq!(r, Ok(BaseTypes::Int(3)));
}

#[test]
fn division_by_zero_is_fatal() {
    let r = eval(vec![int_node(8), op("/"), int_node(0)]);
    assert_eq!(r, Err(EvalError::DivisionByZero));
}

#[test]
fn division_truncates_toward_zero() {
    assert_eq!(eval(vec![int_node(7), op("/"), int_node(2)]), Ok(BaseTypes::Int(3)));
    assert_eq!(eval(vec![int_node(-7), op("/"), int_node(2)]), Ok(BaseTypes::Int(-3)));
    assert_eq!(eval(vec![int_node(7), op("/"), int_node(-2)]), Ok(BaseTypes::Int(-3)));
    assert_eq!(eval(vec![int_node(-7), op("/"), int_node(-2)]), Ok(BaseTypes::Int(3)));
}

#[test]
fn unrecognized_operator_is_fatal() {
    let r = eval(vec![int_node(1), op("%"), int_node(2)]);
    assert_eq!(r, Err(EvalError::UnrecognizedOperator));
}

#[test]
fn two_operands_in_a_row_are_fatal() {
    let r = eval(vec![int_node(1), int_node(2)]);
    assert_eq!(r, Err(EvalError::MissingOperator));
}

#[test]
fn non_integer_operand_is_a_type_error() {
    let r = eval(vec![
        int_node(1),
        op("+"),
        ASTNode::String(jist::node::StringNode::new("x".to_string())),
    ]);
    assert_eq!(r, Err(EvalError::NonIntegerOperand));
}

#[test]
fn overflow_is_fatal() {
    assert_eq!(eval(vec![int_node(i32::MAX), op("+"), int_node(1)]), Err(EvalError::Overflow));
    assert_eq!(eval(vec![int_node(i32::MIN), op("-"), int_node(1)]), Err(EvalError::Overflow));
    assert_eq!(eval(vec![int_node(i32::MIN), op("/"), int_node(-1)]), Err(EvalError::Overflow));
}

#[test]
fn foreign_node_in_expression_position_is_fatal() {
    let r = eval(vec![int_node(1), op("+"), ASTNode::LeftCurly]);
    assert_eq!(r, Err(EvalError::UnhandledNode));
}

#[test]
fn variable_reference_resolves_most_recent_entry() {
    let table = vec![
        Variable {
            name: "a".to_string(),
            value: BaseTypes::Int(1),
            var_type: jist::base_types::TypeTag::Int,
        },
        Variable {
            name: "a".to_string(),
            value: BaseTypes::Int(10),
            var_type: jist::base_types::TypeTag::Int,
        },
    ];
    let nodes = vec![
        ASTNode::VariableCall(jist::node::VariableCallNode::new("a".to_string())),
        op("+"),
        int_node(5),
    ];
    assert_eq!(eval_nodes(&nodes, 0, &table), Ok(BaseTypes::Int(15)));
}

#[test]
fn unknown_variable_reference_is_fatal() {
    let nodes = vec![ASTNode::VariableCall(jist::node::VariableCallNode::new("q".to_string()))];
    assert_eq!(eval_nodes(&nodes, 0, &Vec::new()), Err(EvalError::UnknownVariable));
}

#[test]
fn operation_trims_three_leading_nodes() {
    let nodes = vec![
        ASTNode::Variable(jist::node::VariableNode::new("x".to_string())),
        ASTNode::VariableType(jist::node::VariableTypeNode::new("int".to_string())),
        ASTNode::AssignmentOperator(jist::node::AssignmentOperatorNode::new("=".to_string())),
        int_node(4),
        op("*"),
        int_node(5),
    ];
    assert_eq!(operation(&nodes, &Vec::new()), Ok(BaseTypes::Int(20)));
}

#[test]
fn parse_operator_applies_one_operator() {
    let r = parse_operator(&int_node(6), &op("*"), &int_node(7));
    assert_eq!(r, Ok(int_node(42)));
    let d = parse_operator(&int_node(1), &op("/"), &int_node(0));
    assert_eq!(d, Err(EvalError::DivisionByZero));
    let not_op = parse_operator(&int_node(1), &int_node(2), &int_node(3));
    assert_eq!(not_op, Err(EvalError::MissingOperator));
    let bad = parse_operator(&int_node(1), &op("^"), &int_node(3));
    assert_eq!(bad, Err(EvalError::UnrecognizedOperator));
}
