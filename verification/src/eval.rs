//! The expression evaluator: a strict left-to-right fold over a node
//! sequence, with no operator precedence.
//!
//! The fold keeps an accumulator and a pending operator. An operand with
//! no accumulator becomes the accumulator; otherwise the pending operator
//! is applied to accumulator and operand. A left parenthesis opens a
//! group whose fold runs to the matching right parenthesis and yields one
//! operand to the outer fold; groups nest through an explicit frame
//! stack. A semicolon or the end of input closes the fold and yields the
//! accumulator. Arithmetic is defined on integer operands only; division
//! by zero, an operator outside `+ - * /`, a non-integer operand, and an
//! out-of-range intermediate result are all fatal.

use vstd::arithmetic::div_mod::{lemma_div_basics_4, lemma_div_basics_5};
use vstd::prelude::*;
use crate::base_types::BaseTypes;
use crate::base_variables::{lookup, Variable};
use crate::errors::EvalError;
use crate::literals::str_eq;
use crate::node::{node_base_value, ASTNode, IntNode};

verus! {

/// Whether `sym` is one of the four arithmetic operator symbols.
pub open spec fn is_known_op(sym: Seq<char>) -> bool {
    sym == "+"@ || sym == "-"@ || sym == "*"@ || sym == "/"@
}

/// Truncating integer division, as the `/` of the underlying machine
/// behaves: the quotient of the absolute values, with the sign of the
/// exact quotient.
pub open spec fn div_trunc(a: int, b: int) -> int {
    if a >= 0 && b > 0 {
        a / b
    } else if a < 0 && b > 0 {
        -((-a) / b)
    } else if a >= 0 && b < 0 {
        -(a / (-b))
    } else {
        (-a) / (-b)
    }
}

/// Packs an exact arithmetic result back into an `Int` value, or reports
/// that it left the `i32` range.
pub open spec fn int_result(v: int) -> Result<BaseTypes, EvalError> {
    if -2147483648 <= v <= 2147483647 {
        Ok(BaseTypes::Int(v as i32))
    } else {
        Err(EvalError::Overflow)
    }
}

/// What applying the operator symbol `sym` to operands `a` and `b`
/// yields: integer arithmetic on two `Int` operands, and a fatal error
/// for an unknown symbol, a non-integer operand, or division by zero.
pub open spec fn apply_sym(sym: Seq<char>, a: BaseTypes, b: BaseTypes) -> Result<
    BaseTypes,
    EvalError,
> {
    if !is_known_op(sym) {
        Err(EvalError::UnrecognizedOperator)
    } else {
        match (a, b) {
            (BaseTypes::Int(x), BaseTypes::Int(y)) => {
                if sym == "+"@ {
                    int_result(x + y)
                } else if sym == "-"@ {
                    int_result(x - y)
                } else if sym == "*"@ {
                    int_result(x * y)
                } else {
                    if y == 0 {
                        Err(EvalError::DivisionByZero)
                    } else {
                        int_result(div_trunc(x as int, y as int))
                    }
                }
            },
            _ => Err(EvalError::NonIntegerOperand),
        }
    }
}

/// The value a closing fold yields: the accumulator, or zero when no
/// operand was ever seen.
pub open spec fn finish(acc: Option<BaseTypes>) -> BaseTypes {
    match acc {
        Some(v) => v,
        None => BaseTypes::Int(0),
    }
}

/// Feeds one operand value into the fold state: it becomes the
/// accumulator when there is none, and is otherwise combined with it by
/// the pending operator.
pub open spec fn combined(
    acc: Option<BaseTypes>,
    pend: Option<Seq<char>>,
    v: BaseTypes,
) -> Result<(Option<BaseTypes>, Option<Seq<char>>), EvalError> {
    match acc {
        Option::None => Ok((Some(v), pend)),
        Option::Some(a) => match pend {
            Option::None => Err(EvalError::MissingOperator),
            Option::Some(sym) => match apply_sym(sym, a, v) {
                Ok(r) => Ok((Some(r), Option::None)),
                Err(e) => Err(e),
            },
        },
    }
}

/// One suspended group: the accumulator and pending operator of the
/// enclosing fold, waiting for the group's value.
pub type Frame = (Option<BaseTypes>, Option<Seq<char>>);

/// The fold from position `i` on, with group frames `stack`, accumulator
/// `acc` and pending operator `pend`, resolving variable references
/// against the table `t`.
pub open spec fn eval_from(
    s: Seq<ASTNode>,
    i: int,
    stack: Seq<Frame>,
    acc: Option<BaseTypes>,
    pend: Option<Seq<char>>,
    t: Seq<Variable>,
) -> Result<BaseTypes, EvalError>
    decreases s.len() - i,
{
    if i < 0 || i >= s.len() {
        Ok(finish(acc))
    } else {
        match s[i] {
            ASTNode::Int(_) | ASTNode::Float(_) | ASTNode::String(_) | ASTNode::Bool(_)
                | ASTNode::Char(_) => match combined(acc, pend, node_base_value(s[i])) {
                Ok(st) => eval_from(s, i + 1, stack, st.0, st.1, t),
                Err(e) => Err(e),
            },
            ASTNode::VariableCall(vc) => match lookup(t, vc.name@) {
                Some(v) => match combined(acc, pend, v.value) {
                    Ok(st) => eval_from(s, i + 1, stack, st.0, st.1, t),
                    Err(e) => Err(e),
                },
                Option::None => Err(EvalError::UnknownVariable),
            },
            ASTNode::Operator(o) => eval_from(s, i + 1, stack, acc, Some(o.operator@), t),
            ASTNode::LeftParenthesis => eval_from(
                s,
                i + 1,
                stack.push((acc, pend)),
                Option::None,
                Option::None,
                t,
            ),
            ASTNode::RightParenthesis => {
                if stack.len() == 0 {
                    // A stray closing parenthesis outside any group is skipped.
                    eval_from(s, i + 1, stack, acc, pend, t)
                } else {
                    let top = stack.last();
                    match combined(top.0, top.1, finish(acc)) {
                        Ok(st) => eval_from(s, i + 1, stack.drop_last(), st.0, st.1, t),
                        Err(e) => Err(e),
                    }
                }
            },
            ASTNode::SemiColon => Ok(finish(acc)),
            _ => Err(EvalError::UnhandledNode),
        }
    }
}

/// The whole fold of `s` from position `from`, starting with no group, no
/// accumulator and no pending operator.
pub open spec fn eval_nodes_spec(s: Seq<ASTNode>, from: int, t: Seq<Variable>) -> Result<
    BaseTypes,
    EvalError,
> {
    eval_from(s, from, Seq::empty(), Option::None, Option::None, t)
}

/// The pending-operator text as the spec fold sees it.
pub open spec fn pend_view(p: Option<String>) -> Option<Seq<char>> {
    match p {
        Some(s) => Some(s@),
        Option::None => Option::None,
    }
}

/// The frame stack as the spec fold sees it.
pub open spec fn frames_view(v: Seq<(Option<BaseTypes>, Option<String>)>) -> Seq<Frame> {
    v.map_values(|f: (Option<BaseTypes>, Option<String>)| (f.0, pend_view(f.1)))
}

/// Applies the operator symbol `sym` to two operand values, exactly as
/// `apply_sym` describes.
pub fn apply_operator(sym: &String, a: BaseTypes, b: BaseTypes) -> (r: Result<
    BaseTypes,
    EvalError,
>)
    ensures
        r == apply_sym(sym@, a, b),
{
    let plus = str_eq(sym.as_str(), "+");
    let minus = str_eq(sym.as_str(), "-");
    let times = str_eq(sym.as_str(), "*");
    let divide = str_eq(sym.as_str(), "/");
    if !plus && !minus && !times && !divide {
        return Err(EvalError::UnrecognizedOperator);
    }
    match (a, b) {
        (BaseTypes::Int(x), BaseTypes::Int(y)) => {
            if plus {
                let v: i64 = (x as i64) + (y as i64);
                if v < -2147483648i64 || v > 2147483647i64 {
                    Err(EvalError::Overflow)
                } else {
                    Ok(BaseTypes::Int(v as i32))
                }
            } else if minus {
                let v: i64 = (x as i64) - (y as i64);
                if v < -2147483648i64 || v > 2147483647i64 {
                    Err(EvalError::Overflow)
                } else {
                    Ok(BaseTypes::Int(v as i32))
                }
            } else if times {
                proof {
                    assert((x as int) * (y as int) <= 0x4000_0000_0000_0000 && (x as int) * (
                    y as int) >= -0x4000_0000_0000_0000) by (nonlinear_arith)
                        requires
                            -0x8000_0000 <= x as int <= 0x7fff_ffff,
                            -0x8000_0000 <= y as int <= 0x7fff_ffff,
                    ;
                }
                let v: i64 = (x as i64) * (y as i64);
                if v < -2147483648i64 || v > 2147483647i64 {
                    Err(EvalError::Overflow)
                } else {
                    Ok(BaseTypes::Int(v as i32))
                }
            } else {
                if y == 0 {
                    return Err(EvalError::DivisionByZero);
                }
                let neg: bool = (x < 0) != (y < 0);
                let ax: u64 = if x >= 0 {
                    x as u64
                } else {
                    (-(x as i64)) as u64
                };
                let ay: u64 = if y >= 0 {
                    y as u64
                } else {
                    (-(y as i64)) as u64
                };
                let q: u64 = ax / ay;
                proof {
                    lemma_div_basics_4(ax as int, ay as int);
                    lemma_div_basics_5(ax as int, ay as int);
                    assert(q == ax as int / ay as int);
                    assert(q <= ax);
                    if neg {
                        assert(div_trunc(x as int, y as int) == -(q as int));
                    } else {
                        assert(div_trunc(x as int, y as int) == q as int);
                    }
                }
                if neg {
                    Ok(BaseTypes::Int((-(q as i64)) as i32))
                } else {
                    if q > 2147483647u64 {
                        Err(EvalError::Overflow)
                    } else {
                        Ok(BaseTypes::Int(q as i32))
                    }
                }
            }
        },
        _ => Err(EvalError::NonIntegerOperand),
    }
}

/// Feeds one operand value into the executable fold state, exactly as
/// `combined` describes.
fn combine_step(acc: Option<BaseTypes>, pend: Option<String>, v: BaseTypes) -> (r: Result<
    (Option<BaseTypes>, Option<String>),
    EvalError,
>)
    ensures
        match r {
            Ok(st) => combined(acc, pend_view(pend), v) == Ok::<
                (Option<BaseTypes>, Option<Seq<char>>),
                EvalError,
            >((st.0, pend_view(st.1))),
            Err(e) => combined(acc, pend_view(pend), v) == Err::<
                (Option<BaseTypes>, Option<Seq<char>>),
                EvalError,
            >(e),
        },
{
    match acc {
        Option::None => Ok((Some(v), pend)),
        Option::Some(a) => match pend {
            Option::None => Err(EvalError::MissingOperator),
            Option::Some(sym) => match apply_operator(&sym, a, v) {
                Ok(r) => Ok((Some(r), Option::None)),
                Err(e) => Err(e),
            },
        },
    }
}

/// The value a closing executable fold yields.
fn finish_exec(acc: Option<BaseTypes>) -> (r: BaseTypes)
    ensures
        r == finish(acc),
{
    match acc {
        Some(v) => v,
        Option::None => BaseTypes::Int(0),
    }
}

/// Runs the fold from position `i` with the given state, exactly as
/// `eval_from` describes.
fn eval_step(
    expr: &Vec<ASTNode>,
    i: usize,
    stack: Vec<(Option<BaseTypes>, Option<String>)>,
    acc: Option<BaseTypes>,
    pend: Option<String>,
    table: &Vec<Variable>,
) -> (r: Result<BaseTypes, EvalError>)
    ensures
        r == eval_from(expr@, i as int, frames_view(stack@), acc, pend_view(pend), table@),
    decreases expr@.len() - i,
{
    if i >= expr.len() {
        return Ok(finish_exec(acc));
    }
    match &expr[i] {
        ASTNode::Int(n) => match combine_step(acc, pend, BaseTypes::Int(n.value)) {
            Ok(st) => eval_step(expr, i + 1, stack, st.0, st.1, table),
            Err(e) => Err(e),
        },
        ASTNode::Float(f) => match combine_step(acc, pend, BaseTypes::Float(f.value.clone())) {
            Ok(st) => eval_step(expr, i + 1, stack, st.0, st.1, table),
            Err(e) => Err(e),
        },
        ASTNode::String(s) => match combine_step(
            acc,
            pend,
            BaseTypes::StringWrapper(s.value.clone()),
        ) {
            Ok(st) => eval_step(expr, i + 1, stack, st.0, st.1, table),
            Err(e) => Err(e),
        },
        ASTNode::Bool(b) => match combine_step(acc, pend, BaseTypes::Bool(b.value)) {
            Ok(st) => eval_step(expr, i + 1, stack, st.0, st.1, table),
            Err(e) => Err(e),
        },
        ASTNode::Char(c) => match combine_step(acc, pend, BaseTypes::Char(c.value)) {
            Ok(st) => eval_step(expr, i + 1, stack, st.0, st.1, table),
            Err(e) => Err(e),
        },
        ASTNode::VariableCall(vc) => match crate::base_variables::find_variable(
            table,
            vc.name.as_str(),
        ) {
            Some(v) => {
                let value = v.value.clone();
                match combine_step(acc, pend, value) {
                    Ok(st) => eval_step(expr, i + 1, stack, st.0, st.1, table),
                    Err(e) => Err(e),
                }
            },
            Option::None => Err(EvalError::UnknownVariable),
        },
        ASTNode::Operator(o) => {
            let sym = o.operator.clone();
            eval_step(expr, i + 1, stack, acc, Some(sym), table)
        },
        ASTNode::LeftParenthesis => {
            let ghost s0 = stack@;
            let ghost ga = acc;
            let ghost gp = pend_view(pend);
            let mut stack2 = stack;
            stack2.push((acc, pend));
            proof {
                assert(frames_view(stack2@) =~= frames_view(s0).push((ga, gp)));
            }
            eval_step(expr, i + 1, stack2, Option::None, Option::None, table)
        },
        ASTNode::RightParenthesis => {
            let ghost s0 = stack@;
            let mut stack2 = stack;
            match stack2.pop() {
                Some(top) => {
                    proof {
                        assert(s0.len() > 0);
                        assert(stack2@ == s0.drop_last());
                        assert(top == s0.last());
                        assert(frames_view(s0).last() == (top.0, pend_view(top.1)));
                        assert(frames_view(stack2@) =~= frames_view(s0).drop_last());
                    }
                    let gv = finish_exec(acc);
                    match combine_step(top.0, top.1, gv) {
                        Ok(st) => eval_step(expr, i + 1, stack2, st.0, st.1, table),
                        Err(e) => Err(e),
                    }
                },
                Option::None => eval_step(expr, i + 1, stack2, acc, pend, table),
            }
        },
        ASTNode::SemiColon => Ok(finish_exec(acc)),
        _ => Err(EvalError::UnhandledNode),
    }
}

/// Reduces the node sequence from position `from` on to a single value by
/// the left-to-right fold, resolving variable references against `table`.
pub fn eval_nodes(expr: &Vec<ASTNode>, from: usize, table: &Vec<Variable>) -> (r: Result<
    BaseTypes,
    EvalError,
>)
    ensures
        r == eval_nodes_spec(expr@, from as int, table@),
{
    let stack: Vec<(Option<BaseTypes>, Option<String>)> = Vec::new();
    proof {
        assert(frames_view(stack@) =~= Seq::<Frame>::empty());
    }
    eval_step(expr, from, stack, Option::None, Option::None, table)
}

/// The strict left-to-right, no-precedence fold written directly: the
/// result so far, combined with each following (operator, operand) pair
/// in turn; `i` is the position of the next operator.
pub open spec fn fold_forward(a: Result<BaseTypes, EvalError>, s: Seq<ASTNode>, i: int) -> Result<
    BaseTypes,
    EvalError,
>
    decreases s.len() - i,
{
    match a {
        Err(e) => Err(e),
        Ok(v) => {
            if i < 0 || i + 1 >= s.len() {
                Ok(v)
            } else {
                let step = match s[i] {
                    ASTNode::Operator(o) => apply_sym(o.operator@, v, node_base_value(s[i + 1])),
                    _ => Err(EvalError::UnhandledNode),
                };
                fold_forward(step, s, i + 2)
            }
        },
    }
}

proof fn lemma_fold_order_aux(s: Seq<ASTNode>, i: int, a: BaseTypes, t: Seq<Variable>)
    requires
        0 <= i <= s.len(),
        forall|j: int| i <= j < s.len() && (j - i) % 2 == 0 ==> (#[trigger] s[j]) is Operator,
        forall|j: int| i <= j < s.len() && (j - i) % 2 == 1 ==> (#[trigger] s[j]) is Int,
    ensures
        eval_from(s, i, Seq::empty(), Some(a), Option::None, t) == fold_forward(Ok(a), s, i),
    decreases s.len() - i,
{
    if i >= s.len() {
    } else {
        assert(s[i] is Operator);
        match s[i] {
            ASTNode::Operator(o) => {
                if i + 1 >= s.len() {
                    assert(eval_from(s, i + 1, Seq::empty(), Some(a), Some(o.operator@), t)
                        == Ok::<BaseTypes, EvalError>(a));
                } else {
                    assert(s[i + 1] is Int);
                    match s[i + 1] {
                        ASTNode::Int(n) => {
                            let v = BaseTypes::Int(n.value);
                            match apply_sym(o.operator@, a, v) {
                                Ok(r) => {
                                    lemma_fold_order_aux(s, i + 2, r, t);
                                },
                                Err(e) => {},
                            }
                        },
                        _ => {},
                    }
                }
            },
            _ => {},
        }
    }
}

/// Fold-order law: over a sequence that alternates integer operands and
/// binary operators, with no parentheses, the evaluator's result is the
/// strict left-to-right, no-precedence fold of the operands.
pub proof fn lemma_fold_order(s: Seq<ASTNode>, t: Seq<Variable>)
    requires
        s.len() % 2 == 1,
        forall|j: int| 0 <= j < s.len() && j % 2 == 0 ==> (#[trigger] s[j]) is Int,
        forall|j: int| 0 <= j < s.len() && j % 2 == 1 ==> (#[trigger] s[j]) is Operator,
    ensures
        eval_nodes_spec(s, 0, t) == fold_forward(Ok(node_base_value(s[0])), s, 1),
{
    assert(s[0] is Int);
    match s[0] {
        ASTNode::Int(n) => {
            lemma_fold_order_aux(s, 1, BaseTypes::Int(n.value), t);
        },
        _ => {},
    }
}

/// That positions strictly between `i` and `m` hold neither parentheses
/// nor a statement terminator: the group opened at `i` is innermost and
/// closes at `m`.
pub open spec fn plain_segment(s: Seq<ASTNode>, i: int, m: int) -> bool {
    forall|j: int|
        i < j < m ==> {
            &&& !((#[trigger] s[j]) is LeftParenthesis)
            &&& !(s[j] is RightParenthesis)
            &&& !(s[j] is SemiColon)
        }
}

proof fn lemma_group_aux(
    s: Seq<ASTNode>,
    i: int,
    m: int,
    j: int,
    stack: Seq<Frame>,
    acc: Option<BaseTypes>,
    pend: Option<Seq<char>>,
    a2: Option<BaseTypes>,
    p2: Option<Seq<char>>,
    t: Seq<Variable>,
)
    requires
        0 <= i < m < s.len(),
        s[m] is RightParenthesis,
        plain_segment(s, i, m),
        i + 1 <= j <= m,
    ensures
        ({
            let seg = s.subrange(i + 1, m);
            let inner = eval_from(seg, j - i - 1, Seq::empty(), a2, p2, t);
            eval_from(s, j, stack.push((acc, pend)), a2, p2, t) == match inner {
                Ok(gv) => match combined(acc, pend, gv) {
                    Ok(st) => eval_from(s, m + 1, stack, st.0, st.1, t),
                    Err(e) => Err(e),
                },
                Err(e) => Err(e),
            }
        }),
    decreases m - j,
{
    let seg = s.subrange(i + 1, m);
    let stack2 = stack.push((acc, pend));
    if j == m {
        assert(seg.len() == m - i - 1);
        assert(eval_from(seg, j - i - 1, Seq::empty(), a2, p2, t) == Ok::<BaseTypes, EvalError>(
            finish(a2),
        ));
        assert(stack2.last() == (acc, pend));
        assert(stack2.drop_last() =~= stack);
    } else {
        assert(seg[j - i - 1] == s[j]);
        match s[j] {
            ASTNode::Int(_) | ASTNode::Float(_) | ASTNode::String(_) | ASTNode::Bool(_)
                | ASTNode::Char(_) => {
                match combined(a2, p2, node_base_value(s[j])) {
                    Ok(st) => {
                        lemma_group_aux(s, i, m, j + 1, stack, acc, pend, st.0, st.1, t);
                    },
                    Err(e) => {},
                }
            },
            ASTNode::VariableCall(vc) => match lookup(t, vc.name@) {
                Some(v) => match combined(a2, p2, v.value) {
                    Ok(st) => {
                        lemma_group_aux(s, i, m, j + 1, stack, acc, pend, st.0, st.1, t);
                    },
                    Err(e) => {},
                },
                Option::None => {},
            },
            ASTNode::Operator(o) => {
                lemma_group_aux(s, i, m, j + 1, stack, acc, pend, a2, Some(o.operator@), t);
            },
            _ => {},
        }
    }
}

/// Parenthesis-grouping law: a group with no nested parentheses closes at
/// its matching right parenthesis and contributes exactly one operand to
/// the enclosing fold — the value of the group's own fold, fed to the
/// enclosing accumulator and pending operator; a failure inside the group
/// fails the whole evaluation.
pub proof fn lemma_group_contributes_one_operand(
    s: Seq<ASTNode>,
    i: int,
    m: int,
    stack: Seq<Frame>,
    acc: Option<BaseTypes>,
    pend: Option<Seq<char>>,
    t: Seq<Variable>,
)
    requires
        0 <= i < m < s.len(),
        s[i] is LeftParenthesis,
        s[m] is RightParenthesis,
        plain_segment(s, i, m),
    ensures
        ({
            let inner = eval_nodes_spec(s.subrange(i + 1, m), 0, t);
            eval_from(s, i, stack, acc, pend, t) == match inner {
                Ok(gv) => match combined(acc, pend, gv) {
                    Ok(st) => eval_from(s, m + 1, stack, st.0, st.1, t),
                    Err(e) => Err(e),
                },
                Err(e) => Err(e),
            }
        }),
{
    lemma_group_aux(s, i, m, i + 1, stack, acc, pend, Option::None, Option::None, t);
}

pub(crate) proof fn lemma_div_zero_aux(
    s: Seq<ASTNode>,
    i: int,
    j: int,
    stack: Seq<Frame>,
    acc: Option<BaseTypes>,
    pend: Option<Seq<char>>,
    t: Seq<Variable>,
)
    requires
        0 <= i <= j,
        j + 2 < s.len(),
        s[j] is Int,
        s[j + 1] matches ASTNode::Operator(o) && o.operator@ == "/"@,
        s[j + 2] matches ASTNode::Int(n) && n.value == 0,
        forall|k: int| i <= k < j ==> !((#[trigger] s[k]) is SemiColon),
    ensures
        eval_from(s, i, stack, acc, pend, t) is Err,
    decreases j - i,
{
    if i == j {
        // Feeding the left operand either fails or leaves an integer
        // accumulator; the pending `/` then divides it by zero.
        reveal_strlit("+");
        reveal_strlit("-");
        reveal_strlit("*");
        reveal_strlit("/");
        match combined(acc, pend, node_base_value(s[i])) {
            Ok(st) => {
                assert(st.0 matches Some(w) && w is Int);
                match s[j + 1] {
                    ASTNode::Operator(o) => {
                        assert(eval_from(s, i, stack, acc, pend, t) == eval_from(
                            s,
                            i + 1,
                            stack,
                            st.0,
                            st.1,
                            t,
                        ));
                        assert(eval_from(s, i + 1, stack, st.0, st.1, t) == eval_from(
                            s,
                            i + 2,
                            stack,
                            st.0,
                            Some(o.operator@),
                            t,
                        ));
                        assert(is_known_op(o.operator@));
                        assert("/"@[0] == '/' && "+"@[0] == '+' && "-"@[0] == '-' && "*"@[0]
                            == '*');
                        assert(o.operator@ != "+"@ && o.operator@ != "-"@ && o.operator@
                            != "*"@);
                        assert(combined(st.0, Some(o.operator@), node_base_value(s[j + 2]))
                            == Err::<(Option<BaseTypes>, Option<Seq<char>>), EvalError>(
                            EvalError::DivisionByZero,
                        ));
                        assert(eval_from(s, i + 2, stack, st.0, Some(o.operator@), t)
                            == Err::<BaseTypes, EvalError>(EvalError::DivisionByZero));
                    },
                    _ => {},
                }
            },
            Err(e) => {},
        }
    } else {
        match s[i] {
            ASTNode::Int(_) | ASTNode::Float(_) | ASTNode::String(_) | ASTNode::Bool(_)
                | ASTNode::Char(_) => {
                match combined(acc, pend, node_base_value(s[i])) {
                    Ok(st) => {
                        lemma_div_zero_aux(s, i + 1, j, stack, st.0, st.1, t);
                    },
                    Err(e) => {},
                }
            },
            ASTNode::VariableCall(vc) => match lookup(t, vc.name@) {
                Some(v) => match combined(acc, pend, v.value) {
                    Ok(st) => {
                        lemma_div_zero_aux(s, i + 1, j, stack, st.0, st.1, t);
                    },
                    Err(e) => {},
                },
                Option::None => {},
            },
            ASTNode::Operator(o) => {
                lemma_div_zero_aux(s, i + 1, j, stack, acc, Some(o.operator@), t);
            },
            ASTNode::LeftParenthesis => {
                lemma_div_zero_aux(
                    s,
                    i + 1,
                    j,
                    stack.push((acc, pend)),
                    Option::None,
                    Option::None,
                    t,
                );
            },
            ASTNode::RightParenthesis => {
                if stack.len() == 0 {
                    lemma_div_zero_aux(s, i + 1, j, stack, acc, pend, t);
                } else {
                    let top = stack.last();
                    match combined(top.0, top.1, finish(acc)) {
                        Ok(st) => {
                            lemma_div_zero_aux(s, i + 1, j, stack.drop_last(), st.0, st.1, t);
                        },
                        Err(e) => {},
                    }
                }
            },
            ASTNode::SemiColon => {
                assert(false);
            },
            _ => {},
        }
    }
}

/// Division-by-zero law: an expression that holds the consecutive nodes
/// `x / 0` (with no statement terminator before them) never evaluates to
/// a value: the fold either reaches the division and fails with a fatal
/// arithmetic condition, or has already failed before it.
pub proof fn lemma_division_by_zero(s: Seq<ASTNode>, j: int, t: Seq<Variable>)
    requires
        0 <= j,
        j + 2 < s.len(),
        s[j] is Int,
        s[j + 1] matches ASTNode::Operator(o) && o.operator@ == "/"@,
        s[j + 2] matches ASTNode::Int(n) && n.value == 0,
        forall|k: int| 0 <= k < j ==> !((#[trigger] s[k]) is SemiColon),
    ensures
        eval_nodes_spec(s, 0, t) is Err,
{
    lemma_div_zero_aux(s, 0, j, Seq::empty(), Option::None, Option::None, t);
}

/// What `parse_operator` yields: the operator node's symbol applied to
/// the values the two operand nodes stand for, packed back into an
/// integer node.
pub open spec fn parse_operator_spec(
    left: ASTNode,
    operator: ASTNode,
    right: ASTNode,
) -> Result<ASTNode, EvalError> {
    match operator {
        ASTNode::Operator(o) => match apply_sym(
            o.operator@,
            node_base_value(left),
            node_base_value(right),
        ) {
            Ok(v) => match v {
                BaseTypes::Int(x) => Ok(ASTNode::Int(IntNode { value: x })),
                _ => Err(EvalError::NonIntegerOperand),
            },
            Err(e) => Err(e),
        },
        _ => Err(EvalError::MissingOperator),
    }
}

/// Applies one binary operator node to two operand nodes, exactly as
/// `parse_operator_spec` describes.
pub fn parse_operator(left: &ASTNode, operator: &ASTNode, right: &ASTNode) -> (r: Result<
    ASTNode,
    EvalError,
>)
    ensures
        r == parse_operator_spec(*left, *operator, *right),
{
    match operator {
        ASTNode::Operator(o) => {
            let a = to_base_value_owned(left);
            let b = to_base_value_owned(right);
            match apply_operator(&o.operator, a, b) {
                Ok(v) => match v {
                    BaseTypes::Int(x) => Ok(ASTNode::Int(IntNode { value: x })),
                    _ => Err(EvalError::NonIntegerOperand),
                },
                Err(e) => Err(e),
            }
        },
        _ => Err(EvalError::MissingOperator),
    }
}

/// Reads a node as the owned runtime value it stands for.
fn to_base_value_owned(node: &ASTNode) -> (r: BaseTypes)
    ensures
        r == node_base_value(*node),
{
    match node {
        ASTNode::Int(i) => BaseTypes::Int(i.value),
        ASTNode::String(s) => BaseTypes::StringWrapper(s.value.clone()),
        ASTNode::Char(c) => BaseTypes::Char(c.value),
        ASTNode::Bool(b) => BaseTypes::Bool(b.value),
        ASTNode::Float(f) => BaseTypes::Float(f.value.clone()),
        _ => BaseTypes::Null,
    }
}

/// Evaluates the value expression of a declaration statement: the three
/// leading declaration nodes (name, type tag, assignment operator) are
/// trimmed, and the fold runs over what remains.
pub fn operation(exp_stack: &Vec<ASTNode>, table: &Vec<Variable>) -> (r: Result<
    BaseTypes,
    EvalError,
>)
    ensures
        r == eval_nodes_spec(exp_stack@, 3, table@),
{
    eval_nodes(exp_stack, 3, table)
}

} // verus!
