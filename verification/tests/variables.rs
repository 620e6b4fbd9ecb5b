//! Tests of the variable compiler: declarations, coercion, the
//! append-only table, and assignments.

use jist::base_types::{BaseTypes, TypeTag};
use jist::base_variables::{ExecutionContext, Variable};
use jist::errors::{CompileError, EvalError};
use jist::node::{
    ASTNode, AssignmentOperatorNode, IntNode, OperatorNode, StringNode, VariableCallNode,
    VariableNode, VariableTypeNode,
};
use jist::variable_compiler::{parse_variable_call, parse_variable_declaration_or_assignment};

fn name(n: &str) -> ASTNode {
    ASTNode::Variable(VariableNode::new(n.to_string()))
}

fn type_tag(t: &str) -> ASTNode {
    ASTNode::VariableType(VariableTypeNode::new(t.to_string()))
}

fn assign() -> ASTNode {
    ASTNode::AssignmentOperator(AssignmentOperatorNode::new("=".to_string()))
}

fn int_node(v: i32) -> ASTNode {
    ASTNode::Int(IntNode::new(v))
}

fn op(sym: &str) -> ASTNode {
    ASTNode::Operator(OperatorNode::new(sym.to_string()))
}

fn var_ref(n: &str) -> ASTNode {
    ASTNode::VariableCall(VariableCallNode::new(n.to_string()))
}

#[test]
fn string_declaration_stores_the_string() {
    let mut ctx = ExecutionContext::new();
    let stmt = vec![
        name("s"),
        type_tag("string"),
        assign(),
        ASTNode::String(StringNode::new("hello".to_string())),
    ];
    let r = parse_variable_declaration_or_assignment(&stmt, 0, &mut ctx);
    assert_eq!(r, Ok(false));
    assert_eq!(ctx.variables.len(), 1);
    assert_eq!(ctx.variables[0].name, "s");
    assert_eq!(*ctx.variables[0].get_type(), TypeTag::StringWrapper);
    assert_eq!(*ctx.variables[0].get_value(), BaseTypes::StringWrapper("hello".to_string()));
}

#[test]
fn coercion_mismatch_never_fails_the_declaration() {
    // name: int = "text" always succeeds: the declared type widens to
    // Float, the value mismatches, and the Float zero default is stored
    // under a warning.
    let mut ctx = ExecutionContext::new();
    let stmt = vec![
        name("name"),
        type_tag("int"),
        assign(),
        ASTNode::String(StringNode::new("text".to_string())),
    ];
    let r = parse_variable_declaration_or_assignment(&stmt, 0, &mut ctx);
    assert_eq!(r, Ok(true), "the declaration succeeds, with a warning");
    assert_eq!(ctx.variables.len(), 1);
    assert_eq!(ctx.variables[0].name, "name");
    assert_eq!(ctx.variables[0].var_type, TypeTag::Float);
    assert_eq!(ctx.variables[0].value, BaseTypes::Float("0.0".to_string()));
}

#[test]
fn int_declarations_widen_to_float() {
    // The widening rule applies to every int declaration: the declared
    // tag becomes Float before the value is checked, so an integer value
    // also mismatches and falls back to the Float default.
    let mut ctx = ExecutionContext::new();
    let stmt = vec![name("n"), type_tag("int"), assign(), int_node(3)];
    let r = parse_variable_declaration_or_assignment(&stmt, 0, &mut ctx);
    assert_eq!(r, Ok(true));
    assert_eq!(ctx.variables[0].var_type, TypeTag::Float);
    assert_eq!(ctx.variables[0].value, BaseTypes::Float("0.0".to_string()));
}

#[test]
fn declaration_value_is_the_folded_expression() {
    let mut ctx = ExecutionContext::new();
    let stmt = vec![name("b"), type_tag("bool"), assign(), int_node(1), op("+"), int_node(2)];
    // The fold yields Int(3); a bool declaration coerces it to false.
    let r = parse_variable_declaration_or_assignment(&stmt, 0, &mut ctx);
    assert_eq!(r, Ok(true));
    assert_eq!(ctx.variables[0].var_type, TypeTag::Bool);
    assert_eq!(ctx.variables[0].value, BaseTypes::Bool(false));
}

#[test]
fn each_successful_declaration_appends_exactly_one_entry() {
    let mut ctx = ExecutionContext::new();
    let first = vec![
        name("a"),
        type_tag("string"),
        assign(),
        ASTNode::String(StringNode::new("one".to_string())),
    ];
    let second = vec![
        name("b"),
        type_tag("string"),
        assign(),
        ASTNode::String(StringNode::new("two".to_string())),
    ];
    assert_eq!(ctx.len(), 0);
    parse_variable_declaration_or_assignment(&first, 0, &mut ctx).unwrap();
    assert_eq!(ctx.len(), 1);
    parse_variable_declaration_or_assignment(&second, 0, &mut ctx).unwrap();
    assert_eq!(ctx.len(), 2);
    assert_eq!(ctx.variables[0].name, "a");
    assert_eq!(ctx.variables[1].name, "b");
}

#[test]
fn redeclaring_a_name_appends_a_second_entry() {
    let mut ctx = ExecutionContext::new();
    let first = vec![
        name("x"),
        type_tag("string"),
        assign(),
        ASTNode::String(StringNode::new("old".to_string())),
    ];
    let again = vec![
        name("x"),
        type_tag("string"),
        assign(),
        ASTNode::String(StringNode::new("new".to_string())),
    ];
    parse_variable_declaration_or_assignment(&first, 0, &mut ctx).unwrap();
    parse_variable_declaration_or_assignment(&again, 0, &mut ctx).unwrap();
    assert_eq!(ctx.len(), 2, "re-declaration appends, it does not replace");
    // Resolution picks the most recent entry.
    let hit = ctx.resolve("x").unwrap();
    assert_eq!(hit.value, BaseTypes::StringWrapper("new".to_string()));
}

#[test]
fn missing_components_fail_the_declaration() {
    let mut ctx = ExecutionContext::new();
    let no_type = vec![name("x"), assign(), int_node(1)];
    assert_eq!(
        parse_variable_declaration_or_assignment(&no_type, 0, &mut ctx),
        Err(CompileError::IncompleteDeclaration)
    );
    let no_assign = vec![name("x"), type_tag("int")];
    assert_eq!(
        parse_variable_declaration_or_assignment(&no_assign, 0, &mut ctx),
        Err(CompileError::IncompleteDeclaration)
    );
    assert_eq!(ctx.len(), 0, "a failing declaration leaves no trace");
}

#[test]
fn unknown_type_tag_fails_the_declaration() {
    let mut ctx = ExecutionContext::new();
    let stmt = vec![name("x"), type_tag("decimal"), assign(), int_node(1)];
    assert_eq!(
        parse_variable_declaration_or_assignment(&stmt, 0, &mut ctx),
        Err(CompileError::UnknownType)
    );
    assert_eq!(ctx.len(), 0);
}

#[test]
fn division_by_zero_in_a_declaration_leaves_the_table_alone() {
    let mut ctx = ExecutionContext::new();
    let stmt = vec![name("x"), type_tag("int"), assign(), int_node(8), op("/"), int_node(0)];
    assert_eq!(
        parse_variable_declaration_or_assignment(&stmt, 0, &mut ctx),
        Err(CompileError::Eval(EvalError::DivisionByZero))
    );
    assert_eq!(ctx.len(), 0, "no table mutation from the failing statement is visible");
}

#[test]
fn assignment_updates_the_resolved_entry_without_coercion() {
    let mut ctx = ExecutionContext::new();
    ctx.declare(Variable {
        name: "count".to_string(),
        value: BaseTypes::Int(3),
        var_type: TypeTag::Int,
    });
    let stmt = vec![var_ref("count"), assign(), var_ref("count"), op("-"), int_node(1)];
    parse_variable_call(&stmt, 0, &mut ctx).unwrap();
    assert_eq!(ctx.len(), 1, "assignment replaces in place");
    assert_eq!(ctx.variables[0].value, BaseTypes::Int(2));
}

#[test]
fn assignment_to_an_unknown_name_fails() {
    let mut ctx = ExecutionContext::new();
    let stmt = vec![var_ref("ghostly"), assign(), int_node(1)];
    assert_eq!(parse_variable_call(&stmt, 0, &mut ctx), Err(CompileError::UnknownAssignTarget));
}

#[test]
fn foreign_node_fails_the_declaration() {
    let mut ctx = ExecutionContext::new();
    let stmt = vec![name("x"), ASTNode::LeftCurly];
    assert_eq!(
        parse_variable_declaration_or_assignment(&stmt, 0, &mut ctx),
        Err(CompileError::UnhandledNode)
    );
    // An operand other than an integer before the assignment operator is
    // likewise foreign to a declaration.
    let early = vec![name("x"), ASTNode::String(StringNode::new("v".to_string())), assign()];
    assert_eq!(
        parse_variable_declaration_or_assignment(&early, 0, &mut ctx),
        Err(CompileError::UnhandledNode)
    );
    assert_eq!(ctx.len(), 0);
}

#[test]
fn malformed_assignment_head_is_refused() {
    let mut ctx = ExecutionContext::new();
    let stmt = vec![var_ref("x"), int_node(1)];
    assert_eq!(parse_variable_call(&stmt, 0, &mut ctx), Err(CompileError::UnhandledNode));
}

#[test]
fn variable_new_applies_the_coercion_policy() {
    let kept = Variable::new("s".to_string(), BaseTypes::Bool(true), TypeTag::Bool);
    assert_eq!(kept.value, BaseTypes::Bool(true));
    assert_eq!(kept.var_type, TypeTag::Bool);

    let widened = Variable::new("n".to_string(), BaseTypes::Int(5), TypeTag::Int);
    assert_eq!(widened.var_type, TypeTag::Float);
    assert_eq!(widened.value, BaseTypes::Float("0.0".to_string()));

    let defaulted = Variable::new("c".to_string(), BaseTypes::Int(5), TypeTag::Char);
    assert_eq!(defaulted.value, BaseTypes::Char('\0'));

    let null_typed = Variable::new("z".to_string(), BaseTypes::Int(5), TypeTag::Null);
    assert_eq!(null_typed.value, BaseTypes::Null);
}

#[test]
fn value_text_renders_each_kind() {
    assert_eq!(BaseTypes::Int(0).to_string(), "0");
    assert_eq!(BaseTypes::Int(42).to_string(), "42");
    assert_eq!(BaseTypes::Int(-123).to_string(), "-123");
    assert_eq!(BaseTypes::Int(i32::MAX).to_string(), "2147483647");
    assert_eq!(BaseTypes::Int(i32::MIN).to_string(), "-2147483648");
    assert_eq!(BaseTypes::Float("1.5".to_string()).to_string(), "1.5");
    assert_eq!(BaseTypes::StringWrapper("hi".to_string()).to_string(), "hi");
    assert_eq!(BaseTypes::Bool(true).to_string(), "true");
    assert_eq!(BaseTypes::Bool(false).to_string(), "false");
    assert_eq!(BaseTypes::Char('x').to_string(), "x");
    assert_eq!(BaseTypes::Null.to_string(), "null");
}

#[test]
fn set_and_get_value() {
    let mut v = Variable::new("s".to_string(), BaseTypes::Bool(true), TypeTag::Bool);
    v.set_value(BaseTypes::Bool(false));
    assert_eq!(*v.get_value(), BaseTypes::Bool(false));
    assert_eq!(*v.get_type(), TypeTag::Bool);
}
