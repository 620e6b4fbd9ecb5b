//! The variable compiler: declaration statements with their type-coercion
//! policy, and assignment statements to already declared names.
//!
//! A declaration scans its nodes once, left to right: the name node sets
//! the pending name, the type node maps its text to a declared type tag,
//! the assignment operator opens assignment mode, and the first operand
//! node in assignment mode hands the rest of the statement to the
//! expression evaluator and ends the scan. A coercion mismatch is never
//! fatal: the declaration succeeds with the type's default value and a
//! warning. On success exactly one entry is appended to the table.

use vstd::prelude::*;
use crate::base_types::{
    decl_warns, declaration_warns, widen, widen_type, stored_value_ok, BaseTypes, TypeTag,
};
use crate::base_variables::{lookup_idx, ExecutionContext, Variable};
use crate::errors::{CompileError, EvalError};
use crate::eval::{eval_nodes, eval_nodes_spec};
use crate::literals::str_eq;
use crate::node::ASTNode;

verus! {

/// The declared type tag a type-annotation text names, if any.
pub open spec fn type_of_text(s: Seq<char>) -> Option<TypeTag> {
    if s == "int"@ {
        Some(TypeTag::Int)
    } else if s == "float"@ {
        Some(TypeTag::Float)
    } else if s == "string"@ {
        Some(TypeTag::StringWrapper)
    } else if s == "bool"@ {
        Some(TypeTag::Bool)
    } else if s == "char"@ {
        Some(TypeTag::Char)
    } else {
        Option::None
    }
}

/// Maps a type-annotation text to its tag, exactly as `type_of_text`
/// describes.
pub fn parse_type_text(s: &str) -> (r: Option<TypeTag>)
    ensures
        r == type_of_text(s@),
{
    if str_eq(s, "int") {
        Some(TypeTag::Int)
    } else if str_eq(s, "float") {
        Some(TypeTag::Float)
    } else if str_eq(s, "string") {
        Some(TypeTag::StringWrapper)
    } else if str_eq(s, "bool") {
        Some(TypeTag::Bool)
    } else if str_eq(s, "char") {
        Some(TypeTag::Char)
    } else {
        None
    }
}

/// The left-to-right scan of a declaration statement from position `j`:
/// it gathers the pending name, declared type and assignment-mode flag,
/// and the first operand met in assignment mode hands the rest of the
/// statement to the expression evaluator and ends the scan. The scan also
/// ends at a semicolon or at the end of input; an operand other than an
/// integer before the assignment operator, or a node foreign to
/// declarations, is a fatal error.
pub open spec fn decl_scan(
    s: Seq<ASTNode>,
    j: int,
    name: Option<String>,
    ty: Option<TypeTag>,
    has_assign: bool,
    t: Seq<Variable>,
) -> Result<(Option<String>, Option<TypeTag>, bool, BaseTypes), CompileError>
    decreases s.len() - j,
{
    if j < 0 || j >= s.len() {
        Ok((name, ty, has_assign, BaseTypes::Null))
    } else {
        match s[j] {
            ASTNode::SemiColon => Ok((name, ty, has_assign, BaseTypes::Null)),
            ASTNode::Variable(v) => decl_scan(s, j + 1, Some(v.value), ty, has_assign, t),
            ASTNode::VariableType(v) => match type_of_text(v.value@) {
                Some(tag) => decl_scan(s, j + 1, name, Some(tag), has_assign, t),
                Option::None => Err(CompileError::UnknownType),
            },
            ASTNode::AssignmentOperator(_) => decl_scan(s, j + 1, name, ty, true, t),
            ASTNode::Int(_) | ASTNode::Float(_) | ASTNode::String(_) | ASTNode::Bool(_)
                | ASTNode::Char(_) | ASTNode::VariableCall(_) => {
                if has_assign {
                    match eval_nodes_spec(s, j, t) {
                        Ok(v) => Ok((name, ty, true, v)),
                        Err(e) => Err(CompileError::Eval(e)),
                    }
                } else if s[j] is Int {
                    decl_scan(s, j + 1, name, ty, has_assign, t)
                } else {
                    Err(CompileError::UnhandledNode)
                }
            },
            ASTNode::LeftParenthesis | ASTNode::RightParenthesis => decl_scan(
                s,
                j + 1,
                name,
                ty,
                has_assign,
                t,
            ),
            _ => Err(CompileError::UnhandledNode),
        }
    }
}

/// What a declaration statement starting at `start` produces over table
/// `t`: the declared name, the widened type tag, and the computed value —
/// or the error that stops the run. A scan that ends without name, type
/// and assignment operator all present is an incomplete declaration.
pub open spec fn decl_outcome(s: Seq<ASTNode>, start: int, t: Seq<Variable>) -> Result<
    (String, TypeTag, BaseTypes),
    CompileError,
> {
    match decl_scan(s, start, Option::None, Option::None, false, t) {
        Err(e) => Err(e),
        Ok((name, ty, has_assign, value)) => match (name, ty) {
            (Some(n), Some(tag)) => if has_assign {
                Ok((n, widen_type(tag), value))
            } else {
                Err(CompileError::IncompleteDeclaration)
            },
            _ => Err(CompileError::IncompleteDeclaration),
        },
    }
}

/// Runs the declaration scan, exactly as `decl_scan` describes.
fn decl_scan_exec(
    s: &Vec<ASTNode>,
    j: usize,
    name: Option<String>,
    ty: Option<TypeTag>,
    has_assign: bool,
    table: &Vec<Variable>,
) -> (r: Result<(Option<String>, Option<TypeTag>, bool, BaseTypes), CompileError>)
    ensures
        r == decl_scan(s@, j as int, name, ty, has_assign, table@),
    decreases s@.len() - j,
{
    if j >= s.len() {
        return Ok((name, ty, has_assign, BaseTypes::Null));
    }
    match &s[j] {
        ASTNode::SemiColon => Ok((name, ty, has_assign, BaseTypes::Null)),
        ASTNode::Variable(v) => decl_scan_exec(s, j + 1, Some(v.value.clone()), ty, has_assign, table),
        ASTNode::VariableType(v) => match parse_type_text(v.value.as_str()) {
            Some(tag) => decl_scan_exec(s, j + 1, name, Some(tag), has_assign, table),
            None => Err(CompileError::UnknownType),
        },
        ASTNode::AssignmentOperator(_) => decl_scan_exec(s, j + 1, name, ty, true, table),
        ASTNode::Int(_) | ASTNode::Float(_) | ASTNode::String(_) | ASTNode::Bool(_)
            | ASTNode::Char(_) | ASTNode::VariableCall(_) => {
            if has_assign {
                match eval_nodes(s, j, table) {
                    Ok(v) => Ok((name, ty, true, v)),
                    Err(e) => Err(CompileError::Eval(e)),
                }
            } else {
                match &s[j] {
                    ASTNode::Int(_) => decl_scan_exec(s, j + 1, name, ty, has_assign, table),
                    _ => Err(CompileError::UnhandledNode),
                }
            }
        },
        ASTNode::LeftParenthesis | ASTNode::RightParenthesis => decl_scan_exec(
            s,
            j + 1,
            name,
            ty,
            has_assign,
            table,
        ),
        _ => Err(CompileError::UnhandledNode),
    }
}

/// Compiles the declaration statement starting at `start`: on success the
/// coerced variable is appended to the table — exactly one new entry, in
/// declaration order — and the returned flag says whether a coercion
/// warning was raised. On any error the table is unchanged.
pub fn parse_variable_declaration_or_assignment(
    exp_stack: &Vec<ASTNode>,
    start: usize,
    ctx: &mut ExecutionContext,
) -> (r: Result<bool, CompileError>)
    ensures
        match decl_outcome(exp_stack@, start as int, old(ctx).variables@) {
            Err(e) => r == Err::<bool, CompileError>(e) && final(ctx).variables@ == old(
                ctx,
            ).variables@,
            Ok(d) => {
                let stored = final(ctx).variables@.last();
                &&& r == Ok::<bool, CompileError>(decl_warns(d.1, d.2))
                &&& final(ctx).variables@ == old(ctx).variables@.push(stored)
                &&& final(ctx).variables@.len() == old(ctx).variables@.len() + 1
                &&& stored.name == d.0
                &&& stored.var_type == d.1
                &&& stored_value_ok(d.1, d.2, stored.value)
            },
        },
        final(ctx).in_loop == old(ctx).in_loop,
{
    let scanned = decl_scan_exec(exp_stack, start, None, None, false, &ctx.variables);
    match scanned {
        Err(e) => Err(e),
        Ok((name_opt, ty_opt, has_assign, value)) => match (name_opt, ty_opt) {
            (Some(n), Some(tag)) => {
                if has_assign {
                    let wt = widen(tag);
                    let warned = declaration_warns(wt, &value);
                    let var = Variable::new(n, value, tag);
                    ctx.declare(var);
                    Ok(warned)
                } else {
                    Err(CompileError::IncompleteDeclaration)
                }
            },
            _ => Err(CompileError::IncompleteDeclaration),
        },
    }
}

/// What an assignment statement starting at `start` does to table `t`:
/// the value expression after the `=` is evaluated, and the entry the
/// target name resolves to gets that value, with no coercion. Evaluation
/// failure, an unresolved target, and a malformed statement head are
/// fatal, and leave the table as it was.
pub open spec fn assign_outcome(s: Seq<ASTNode>, start: int, t: Seq<Variable>) -> Result<
    Seq<Variable>,
    CompileError,
> {
    if 0 <= start && start + 1 < s.len() && (s[start] is VariableCall) && (s[start + 1]
        is AssignmentOperator) {
        match s[start] {
            ASTNode::VariableCall(vc) => match eval_nodes_spec(s, start + 2, t) {
                Ok(v) => {
                    let i = lookup_idx(t, vc.name@);
                    if i >= 0 {
                        Ok(
                            t.update(
                                i,
                                Variable { name: t[i].name, value: v, var_type: t[i].var_type },
                            ),
                        )
                    } else {
                        Err(CompileError::UnknownAssignTarget)
                    }
                },
                Err(e) => Err(CompileError::Eval(e)),
            },
            _ => Err(CompileError::UnhandledNode),
        }
    } else {
        Err(CompileError::UnhandledNode)
    }
}

/// Compiles the assignment statement starting at `start`, exactly as
/// `assign_outcome` describes.
pub fn parse_variable_call(
    exp_stack: &Vec<ASTNode>,
    start: usize,
    ctx: &mut ExecutionContext,
) -> (r: Result<(), CompileError>)
    ensures
        match assign_outcome(exp_stack@, start as int, old(ctx).variables@) {
            Ok(t2) => r is Ok && final(ctx).variables@ == t2,
            Err(e) => r == Err::<(), CompileError>(e) && final(ctx).variables@ == old(
                ctx,
            ).variables@,
        },
        final(ctx).in_loop == old(ctx).in_loop,
{
    if start >= exp_stack.len() || start + 1 >= exp_stack.len() {
        return Err(CompileError::UnhandledNode);
    }
    let is_target = match &exp_stack[start] {
        ASTNode::VariableCall(_) => true,
        _ => false,
    };
    let is_assign = match &exp_stack[start + 1] {
        ASTNode::AssignmentOperator(_) => true,
        _ => false,
    };
    if !is_target || !is_assign {
        return Err(CompileError::UnhandledNode);
    }
    match &exp_stack[start] {
        ASTNode::VariableCall(vc) => {
            match eval_nodes(exp_stack, start + 2, &ctx.variables) {
                Ok(v) => {
                    let hit = ctx.assign(vc.name.as_str(), v);
                    if hit {
                        Ok(())
                    } else {
                        Err(CompileError::UnknownAssignTarget)
                    }
                },
                Err(e) => Err(CompileError::Eval(e)),
            }
        },
        _ => Err(CompileError::UnhandledNode),
    }
}

proof fn lemma_decl_scan_division_by_zero(
    s: Seq<ASTNode>,
    p: int,
    name: Option<String>,
    ty: Option<TypeTag>,
    has_assign: bool,
    t: Seq<Variable>,
    j: int,
)
    requires
        0 <= p <= j,
        j + 2 < s.len(),
        s[j] is Int,
        s[j + 1] matches ASTNode::Operator(o) && o.operator@ == "/"@,
        s[j + 2] matches ASTNode::Int(n) && n.value == 0,
        forall|k: int| p <= k < j ==> !((#[trigger] s[k]) is SemiColon),
    ensures
        decl_scan(s, p, name, ty, has_assign, t) is Err,
    decreases j - p,
{
    if p == j {
        // The scan stands on the division's left operand.
        if has_assign {
            crate::eval::lemma_div_zero_aux(
                s,
                p,
                j,
                Seq::empty(),
                Option::None,
                Option::None,
                t,
            );
        } else {
            // The integer is passed over; the `/` right after it is
            // foreign to a declaration.
            assert(decl_scan(s, p, name, ty, has_assign, t) == decl_scan(
                s,
                p + 1,
                name,
                ty,
                has_assign,
                t,
            ));
            assert(decl_scan(s, p + 1, name, ty, has_assign, t) == Err::<
                (Option<String>, Option<TypeTag>, bool, BaseTypes),
                CompileError,
            >(CompileError::UnhandledNode));
        }
    } else {
        match s[p] {
            ASTNode::Variable(v) => {
                lemma_decl_scan_division_by_zero(s, p + 1, Some(v.value), ty, has_assign, t, j);
            },
            ASTNode::VariableType(v) => {
                match type_of_text(v.value@) {
                    Some(tag) => {
                        lemma_decl_scan_division_by_zero(
                            s,
                            p + 1,
                            name,
                            Some(tag),
                            has_assign,
                            t,
                            j,
                        );
                    },
                    Option::None => {},
                }
            },
            ASTNode::AssignmentOperator(_) => {
                lemma_decl_scan_division_by_zero(s, p + 1, name, ty, true, t, j);
            },
            ASTNode::Int(_) | ASTNode::Float(_) | ASTNode::String(_) | ASTNode::Bool(_)
                | ASTNode::Char(_) | ASTNode::VariableCall(_) => {
                if has_assign {
                    crate::eval::lemma_div_zero_aux(
                        s,
                        p,
                        j,
                        Seq::empty(),
                        Option::None,
                        Option::None,
                        t,
                    );
                } else if s[p] is Int {
                    lemma_decl_scan_division_by_zero(s, p + 1, name, ty, has_assign, t, j);
                }
            },
            ASTNode::LeftParenthesis | ASTNode::RightParenthesis => {
                lemma_decl_scan_division_by_zero(s, p + 1, name, ty, has_assign, t, j);
            },
            _ => {},
        }
    }
}

/// Division-by-zero law at the statement level: a declaration whose node
/// sequence holds the consecutive nodes `x / 0` — with no statement
/// terminator before them — never compiles. Together with the compiler's
/// contract, which keeps the table untouched on every error, no table
/// mutation from such a statement is ever visible.
pub proof fn lemma_declaration_division_by_zero(
    s: Seq<ASTNode>,
    start: int,
    j: int,
    t: Seq<Variable>,
)
    requires
        0 <= start <= j,
        j + 2 < s.len(),
        s[j] is Int,
        s[j + 1] matches ASTNode::Operator(o) && o.operator@ == "/"@,
        s[j + 2] matches ASTNode::Int(n) && n.value == 0,
        forall|k: int| start <= k < j ==> !((#[trigger] s[k]) is SemiColon),
    ensures
        decl_outcome(s, start, t) is Err,
{
    lemma_decl_scan_division_by_zero(s, start, Option::None, Option::None, false, t, j);
}

/// Coercion law: a declaration `name: int = "text"` — a string value
/// assigned under an `int` annotation — never fails. Its outcome is a
/// variable of declared type `Float` (by the widening rule) whose stored
/// value can only be the `Float` zero default, with a warning raised.
pub proof fn lemma_declaration_coercion(s: Seq<ASTNode>, t: Seq<Variable>)
    requires
        s.len() == 4,
        s[0] is Variable,
        s[1] matches ASTNode::VariableType(ty) && ty.value@ == "int"@,
        s[2] is AssignmentOperator,
        s[3] is String,
    ensures
        decl_outcome(s, 0, t) matches Ok(d) && {
            &&& d.1 == TypeTag::Float
            &&& decl_warns(d.1, d.2)
            &&& forall|stored: BaseTypes|
                stored_value_ok(d.1, d.2, stored) ==> (stored matches BaseTypes::Float(z) && z@
                    == "0.0"@)
        },
{
    match (s[0], s[1], s[3]) {
        (ASTNode::Variable(v), ASTNode::VariableType(ty), ASTNode::String(val)) => {
            assert(type_of_text(ty.value@) == Some(TypeTag::Int));
            let t0 = decl_scan(s, 0, Option::None, Option::None, false, t);
            assert(t0 == decl_scan(s, 1, Some(v.value), Option::None, false, t));
            assert(t0 == decl_scan(s, 2, Some(v.value), Some(TypeTag::Int), false, t));
            assert(t0 == decl_scan(s, 3, Some(v.value), Some(TypeTag::Int), true, t));
            let ev = eval_nodes_spec(s, 3, t);
            assert(ev == crate::eval::eval_from(
                s,
                4,
                Seq::empty(),
                Some(BaseTypes::StringWrapper(val.value)),
                Option::None,
                t,
            ));
            assert(ev == Ok::<BaseTypes, EvalError>(BaseTypes::StringWrapper(val.value)));
            assert(t0 == Ok::<(Option<String>, Option<TypeTag>, bool, BaseTypes), CompileError>(
                (Some(v.value), Some(TypeTag::Int), true, BaseTypes::StringWrapper(val.value)),
            ));
        },
        _ => {},
    }
}

} // verus!
