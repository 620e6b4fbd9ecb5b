//! The control-flow compiler.
//!
//! A conditional guard (`if` and `for` use the same sub-routine) is
//! evaluated exactly once: its raw condition text is handed to the
//! external lexer, the resulting tokens are classified here, and the
//! boolean condition evaluator — an external capability — decides the
//! guard over a snapshot of the variable table.
//!
//! A `while` loop repeats that guard evaluation and, while it holds,
//! walks the statement list from the position right after the `while`
//! header to the end of the list — the body boundary is positional, not
//! block-delimited — dispatching each node through the statement router.
//! A failing statement aborts the whole loop at once; nothing after it in
//! that pass runs. The engine itself never bounds iteration: termination
//! is the guard's business alone, so the caller hands in an explicit
//! iteration budget and a run that outlives it fails with a typed error.

use vstd::prelude::*;
use crate::base_variables::{clone_table, ExecutionContext, Variable};
use crate::compiler::{route_body_statement, stmt_error, stmt_is_external, stmt_steps_to};
use crate::errors::{ClassificationError, CompileError};
use crate::node::{classify, match_token_to_node, ASTNode};
use crate::token_type::ParseInfo;

verus! {

/// That the two guard capabilities accept every argument they may be
/// handed: the lexer any condition text, the condition evaluator any
/// node sequence and table snapshot.
pub open spec fn guard_requires<F, G>(tokenize: F, evaluate_condition: G) -> bool where
    F: Fn(String) -> Vec<ParseInfo>,
    G: Fn(Vec<ASTNode>, Vec<Variable>) -> bool,
{
    &&& forall|text: String| #[trigger] call_requires(tokenize, (text,))
    &&& forall|ns: Vec<ASTNode>, vs: Vec<Variable>|
        #[trigger] call_requires(evaluate_condition, (ns, vs))
}

/// That `ns` is the node-by-node classification of the token sequence
/// `ts`, with every token accepted.
pub open spec fn classified(ts: Seq<ParseInfo>, ns: Seq<ASTNode>) -> bool {
    &&& ns.len() == ts.len()
    &&& forall|i: int|
        0 <= i < ts.len() ==> classify(ts[i]) == Ok::<ASTNode, ClassificationError>(
            #[trigger] ns[i],
        )
}

/// That the boolean `b` is an answer the guard pipeline can give for
/// `condition` over `table`: the lexer produced some tokens for the
/// condition text, each token classified to a node, and the condition
/// evaluator answered `b` over those nodes and a snapshot of the table.
pub open spec fn guard_yields<F, G>(
    tokenize: F,
    evaluate_condition: G,
    condition: String,
    table: Seq<Variable>,
    b: bool,
) -> bool where
    F: Fn(String) -> Vec<ParseInfo>,
    G: Fn(Vec<ASTNode>, Vec<Variable>) -> bool,
{
    exists|ts: Vec<ParseInfo>, ns: Vec<ASTNode>, vs: Vec<Variable>|
        {
            &&& #[trigger] call_ensures(tokenize, (condition,), ts)
            &&& classified(ts@, ns@)
            &&& vs@ == table
            &&& #[trigger] call_ensures(evaluate_condition, (ns, vs), b)
        }
}

/// That the guard pipeline for `condition` can fail with the
/// classification error `ce`: the lexer produced some tokens for the
/// condition text and one of them has no node.
pub open spec fn guard_fails<F>(tokenize: F, condition: String, ce: ClassificationError) -> bool
    where F: Fn(String) -> Vec<ParseInfo>,
{
    exists|ts: Vec<ParseInfo>, i: int|
        {
            &&& call_ensures(tokenize, (condition,), ts)
            &&& 0 <= i < ts@.len()
            &&& #[trigger] classify(ts@[i]) == Err::<ASTNode, ClassificationError>(ce)
        }
}

/// Evaluates one guard: the condition text goes through the external
/// lexer, the tokens are classified here, and the external condition
/// evaluator decides the guard over a snapshot of the table. The result
/// is exactly that pipeline's: a boolean the capabilities produced, or
/// the classification error of some token the lexer handed back.
pub fn evaluate_guard<F, G>(
    condition: &String,
    table: &Vec<Variable>,
    tokenize: F,
    evaluate_condition: G,
) -> (r: Result<bool, CompileError>) where
    F: Fn(String) -> Vec<ParseInfo> + Copy,
    G: Fn(Vec<ASTNode>, Vec<Variable>) -> bool + Copy,

    requires
        guard_requires(tokenize, evaluate_condition),
    ensures
        r matches Ok(b) ==> guard_yields(tokenize, evaluate_condition, *condition, table@, b),
        r matches Err(e) ==> (e matches CompileError::Classification(ce) && guard_fails(
            tokenize,
            *condition,
            ce,
        )),
{
    let text = condition.clone();
    let mut tokens = tokenize(text);
    let ghost gts: Vec<ParseInfo> = tokens;
    let mut nodes: Vec<ASTNode> = Vec::new();
    let ghost mut k: int = 0;
    while tokens.len() > 0
        invariant
            0 <= k <= gts@.len(),
            tokens@ == gts@.subrange(k, gts@.len() as int),
            classified(gts@.subrange(0, k), nodes@),
            call_ensures(tokenize, (*condition,), gts),
        decreases tokens@.len(),
    {
        let pi = tokens.remove(0);
        proof {
            assert(pi == gts@[k]);
            assert(tokens@ =~= gts@.subrange(k + 1, gts@.len() as int));
        }
        match match_token_to_node(pi) {
            Ok(n) => {
                nodes.push(n);
                proof {
                    let p = gts@.subrange(0, k);
                    let q = gts@.subrange(0, k + 1);
                    assert(forall|i: int| 0 <= i < p.len() ==> q[i] == p[i]);
                    assert(q[k] == gts@[k]);
                    k = k + 1;
                    assert(classified(gts@.subrange(0, k), nodes@));
                }
            },
            Err(ce) => {
                proof {
                    assert(classify(gts@[k]) == Err::<ASTNode, ClassificationError>(ce));
                    assert(guard_fails(tokenize, *condition, ce));
                }
                return Err(CompileError::Classification(ce));
            },
        }
    }
    proof {
        assert(gts@.subrange(0, k) =~= gts@);
    }
    let vars = clone_table(table);
    let ghost gns: Vec<ASTNode> = nodes;
    let ghost gvs: Vec<Variable> = vars;
    let b = evaluate_condition(nodes, vars);
    proof {
        assert(call_ensures(tokenize, (*condition,), gts));
        assert(classified(gts@, gns@));
        assert(gvs@ == table@);
        assert(call_ensures(evaluate_condition, (gns, gvs), b));
        assert(guard_yields(tokenize, evaluate_condition, *condition, table@, b));
    }
    Ok(b)
}

/// Evaluates the guard of the first `for` header in the statement list,
/// exactly once, and returns that single boolean as the statement's
/// outcome; a list without a `for` header succeeds. The current contract
/// of a `for` construct is guard evaluation only: it does not iterate.
pub fn compile_for_loop<F, G>(
    expression: &Vec<ASTNode>,
    table: &Vec<Variable>,
    tokenize: F,
    evaluate_condition: G,
) -> (r: Result<bool, CompileError>) where
    F: Fn(String) -> Vec<ParseInfo> + Copy,
    G: Fn(Vec<ASTNode>, Vec<Variable>) -> bool + Copy,

    requires
        guard_requires(tokenize, evaluate_condition),
    ensures
        (forall|j: int| 0 <= j < expression@.len() ==> !((#[trigger] expression@[j]) is For))
            ==> r == Ok::<bool, CompileError>(true),
        forall|f: int|
            (0 <= f < expression@.len() && (#[trigger] expression@[f]) is For && (forall|j: int|
                0 <= j < f ==> !((#[trigger] expression@[j]) is For))) ==> (match r {
                Ok(b) => expression@[f] matches ASTNode::For(n) && guard_yields(
                    tokenize,
                    evaluate_condition,
                    n.condition,
                    table@,
                    b,
                ),
                Err(e) => e matches CompileError::Classification(ce) && (expression@[f] matches
                ASTNode::For(n) && guard_fails(tokenize, n.condition, ce)),
            }),
        r matches Err(e) ==> e matches CompileError::Classification(_),
{
    let mut index: usize = 0;
    while index < expression.len()
        invariant
            0 <= index <= expression@.len(),
            forall|j: int| 0 <= j < index ==> !((#[trigger] expression@[j]) is For),
            guard_requires(tokenize, evaluate_condition),
        decreases expression@.len() - index,
    {
        match &expression[index] {
            ASTNode::For(n) => {
                let r = evaluate_guard(&n.condition, table, tokenize, evaluate_condition);
                proof {
                    assert forall|f: int|
                        0 <= f < expression@.len() && (#[trigger] expression@[f]) is For && (
                        forall|j: int| 0 <= j < f ==> !((#[trigger] expression@[j]) is For))
                            implies f == index as int by {
                        assert(expression@[index as int] is For);
                    }
                }
                return r;
            },
            _ => {},
        }
        index = index + 1;
    }
    Ok(true)
}

/// That the statements at positions `start` up to `end` (exclusive) can
/// take table `t` to `t2`, each one succeeding in turn.
pub open spec fn pass_rel(
    s: Seq<ASTNode>,
    start: int,
    end: int,
    t: Seq<Variable>,
    t2: Seq<Variable>,
) -> bool
    decreases end - start,
{
    if start >= end {
        t2 == t
    } else {
        exists|tm: Seq<Variable>|
            #[trigger] stmt_steps_to(s, start, t, tm) && pass_rel(s, start + 1, end, tm, t2)
    }
}

/// That `k` complete, successful passes over the body from `start` to
/// the end of the list can take table `t` to `t2`, each pass entered
/// only after the guard pipeline answered true over the table as it
/// stood before that pass.
pub open spec fn passes_rel<F, G>(
    tokenize: F,
    evaluate_condition: G,
    condition: String,
    s: Seq<ASTNode>,
    start: int,
    t: Seq<Variable>,
    k: nat,
    t2: Seq<Variable>,
) -> bool where
    F: Fn(String) -> Vec<ParseInfo>,
    G: Fn(Vec<ASTNode>, Vec<Variable>) -> bool,

    decreases k,
{
    if k == 0 {
        t2 == t
    } else {
        &&& guard_yields(tokenize, evaluate_condition, condition, t, true)
        &&& exists|tm: Seq<Variable>|
            #[trigger] pass_rel(s, start, s.len() as int, t, tm) && passes_rel(
                tokenize,
                evaluate_condition,
                condition,
                s,
                start,
                tm,
                (k - 1) as nat,
                t2,
            )
    }
}

/// That some guarded complete passes, then one more true guard answer,
/// then a partial pass up to `j` can take table `t` to `t2`: the shape a
/// loop leaves behind when its run stops inside a pass.
pub open spec fn while_partial<F, G>(
    tokenize: F,
    evaluate_condition: G,
    condition: String,
    s: Seq<ASTNode>,
    start: int,
    t: Seq<Variable>,
    t2: Seq<Variable>,
    j: int,
) -> bool where
    F: Fn(String) -> Vec<ParseInfo>,
    G: Fn(Vec<ASTNode>, Vec<Variable>) -> bool,
{
    exists|k: nat, tm: Seq<Variable>|
        {
            &&& #[trigger] passes_rel(tokenize, evaluate_condition, condition, s, start, t, k, tm)
            &&& guard_yields(tokenize, evaluate_condition, condition, tm, true)
            &&& pass_rel(s, start, j, tm, t2)
        }
}

/// The whole contract of a `while` run over the guard `condition`, whose
/// body starts at `start`, taking table `t` to `t2` under the iteration
/// budget `fuel` with result `r`.
///
/// Success means the table is what some number of complete body passes
/// left, each entered under a true guard answer over the then-current
/// table, and the guard answered false over the final table. A failure
/// signal means an external capability stopped a pass: the table holds
/// guarded complete passes plus the prefix of the aborted one. A typed
/// error either stopped a pass at a failing statement — nothing after it
/// in that pass has touched the table — or is a guard classification
/// failure between passes, or is the iteration budget running out after
/// exactly `fuel` passes with the guard still answering true.
pub open spec fn while_outcome_ok<F, G>(
    tokenize: F,
    evaluate_condition: G,
    condition: String,
    s: Seq<ASTNode>,
    start: int,
    t: Seq<Variable>,
    t2: Seq<Variable>,
    fuel: u64,
    r: Result<bool, CompileError>,
) -> bool where
    F: Fn(String) -> Vec<ParseInfo>,
    G: Fn(Vec<ASTNode>, Vec<Variable>) -> bool,
{
    match r {
        Ok(true) => (exists|k: nat|
            #[trigger] passes_rel(tokenize, evaluate_condition, condition, s, start, t, k, t2))
            && guard_yields(tokenize, evaluate_condition, condition, t2, false),
        Ok(false) => exists|j: int|
            start <= j < s.len() && #[trigger] while_partial(
                tokenize,
                evaluate_condition,
                condition,
                s,
                start,
                t,
                t2,
                j,
            ) && stmt_is_external(s, j),
        Err(e) => {
            ||| (e matches CompileError::Classification(ce) && (exists|k: nat|
                #[trigger] passes_rel(
                    tokenize,
                    evaluate_condition,
                    condition,
                    s,
                    start,
                    t,
                    k,
                    t2,
                )) && guard_fails(tokenize, condition, ce))
            ||| (e == CompileError::IterationLimit && passes_rel(
                tokenize,
                evaluate_condition,
                condition,
                s,
                start,
                t,
                fuel as nat,
                t2,
            ) && guard_yields(tokenize, evaluate_condition, condition, t2, true))
            ||| exists|j: int|
                start <= j < s.len() && #[trigger] while_partial(
                    tokenize,
                    evaluate_condition,
                    condition,
                    s,
                    start,
                    t,
                    t2,
                    j,
                ) && (stmt_error(s, j, t2) == Some(e) || stmt_is_external(s, j))
        },
    }
}

/// Appending one more successful statement extends a partial pass.
proof fn lemma_pass_rel_extend(
    s: Seq<ASTNode>,
    start: int,
    j: int,
    t0: Seq<Variable>,
    t1: Seq<Variable>,
    t2: Seq<Variable>,
)
    requires
        start <= j,
        pass_rel(s, start, j, t0, t1),
        stmt_steps_to(s, j, t1, t2),
    ensures
        pass_rel(s, start, j + 1, t0, t2),
    decreases j - start,
{
    if start == j {
        assert(t1 == t0);
        assert(pass_rel(s, j + 1, j + 1, t2, t2));
    } else {
        let tm = choose|tm: Seq<Variable>|
            #[trigger] stmt_steps_to(s, start, t0, tm) && pass_rel(s, start + 1, j, tm, t1);
        lemma_pass_rel_extend(s, start + 1, j, tm, t1, t2);
    }
}

/// Appending one more guarded complete pass extends a run of guarded
/// complete passes.
proof fn lemma_passes_extend<F, G>(
    tokenize: F,
    evaluate_condition: G,
    condition: String,
    s: Seq<ASTNode>,
    start: int,
    t0: Seq<Variable>,
    k: nat,
    t1: Seq<Variable>,
    t2: Seq<Variable>,
) where
    F: Fn(String) -> Vec<ParseInfo>,
    G: Fn(Vec<ASTNode>, Vec<Variable>) -> bool,

    requires
        passes_rel(tokenize, evaluate_condition, condition, s, start, t0, k, t1),
        guard_yields(tokenize, evaluate_condition, condition, t1, true),
        pass_rel(s, start, s.len() as int, t1, t2),
    ensures
        passes_rel(tokenize, evaluate_condition, condition, s, start, t0, k + 1, t2),
    decreases k,
{
    if k == 0 {
        assert(t1 == t0);
        assert(passes_rel(tokenize, evaluate_condition, condition, s, start, t2, 0, t2));
    } else {
        let tm = choose|tm: Seq<Variable>|
            #[trigger] pass_rel(s, start, s.len() as int, t0, tm) && passes_rel(
                tokenize,
                evaluate_condition,
                condition,
                s,
                start,
                tm,
                (k - 1) as nat,
                t1,
            );
        lemma_passes_extend(
            tokenize,
            evaluate_condition,
            condition,
            s,
            start,
            tm,
            (k - 1) as nat,
            t1,
            t2,
        );
    }
}

/// Walks the loop body once, from `start` to the end of the statement
/// list, dispatching each node through the statement router. The walk
/// stops at the first failure signal or typed error; statements after
/// the stopping one are not executed and leave no trace in the table.
fn run_body_once<F, G, H>(
    expression: &Vec<ASTNode>,
    start: usize,
    ctx: &mut ExecutionContext,
    tokenize: F,
    evaluate_condition: G,
    call_function: H,
) -> (r: Result<bool, CompileError>) where
    F: Fn(String) -> Vec<ParseInfo> + Copy,
    G: Fn(Vec<ASTNode>, Vec<Variable>) -> bool + Copy,
    H: Fn(String) -> bool + Copy,

    requires
        guard_requires(tokenize, evaluate_condition),
        forall|name: String| #[trigger] call_requires(call_function, (name,)),
    ensures
        match r {
            Ok(true) => pass_rel(
                expression@,
                start as int,
                expression@.len() as int,
                old(ctx).variables@,
                final(ctx).variables@,
            ),
            Ok(false) => exists|j: int|
                start <= j < expression@.len() && #[trigger] pass_rel(
                    expression@,
                    start as int,
                    j,
                    old(ctx).variables@,
                    final(ctx).variables@,
                ) && stmt_is_external(expression@, j),
            Err(e) => exists|j: int|
                start <= j < expression@.len() && #[trigger] pass_rel(
                    expression@,
                    start as int,
                    j,
                    old(ctx).variables@,
                    final(ctx).variables@,
                ) && (stmt_error(expression@, j, final(ctx).variables@) == Some(e)
                    || stmt_is_external(expression@, j)),
        },
        final(ctx).in_loop == old(ctx).in_loop,
{
    let ghost s = expression@;
    let ghost t0 = ctx.variables@;
    let mut j = start;
    while j < expression.len()
        invariant
            start <= j,
            j <= expression@.len() || j == start,
            s == expression@,
            t0 == old(ctx).variables@,
            pass_rel(s, start as int, j as int, t0, ctx.variables@),
            ctx.in_loop == old(ctx).in_loop,
            guard_requires(tokenize, evaluate_condition),
            forall|name: String| #[trigger] call_requires(call_function, (name,)),
        decreases expression@.len() - j,
    {
        let ghost before = ctx.variables@;
        let r = route_body_statement(expression, j, ctx, tokenize, evaluate_condition,
            call_function);
        match r {
            Ok(true) => {
                proof {
                    lemma_pass_rel_extend(
                        s,
                        start as int,
                        j as int,
                        t0,
                        before,
                        ctx.variables@,
                    );
                }
                j = j + 1;
            },
            Ok(false) => {
                return Ok(false);
            },
            Err(e) => {
                return Err(e);
            },
        }
    }
    Ok(true)
}

/// Runs the `while` statement whose header stands at `index`: the guard
/// is freshly tokenized, classified and evaluated before every pass, and
/// while it holds the loop-execution flag is set and the body — every
/// node after the header to the end of the list — runs through the
/// statement router. A clean exit (the guard evaluates false) clears the
/// flag and succeeds. A failing body statement aborts the whole loop at
/// once. `fuel` bounds the passes this call may make, since the engine
/// itself enforces no iteration cap: a run still going after `fuel`
/// passes fails with the iteration-budget error.
pub fn compile_while_loop<F, G, H>(
    expression: &Vec<ASTNode>,
    index: usize,
    ctx: &mut ExecutionContext,
    fuel: u64,
    tokenize: F,
    evaluate_condition: G,
    call_function: H,
) -> (r: Result<bool, CompileError>) where
    F: Fn(String) -> Vec<ParseInfo> + Copy,
    G: Fn(Vec<ASTNode>, Vec<Variable>) -> bool + Copy,
    H: Fn(String) -> bool + Copy,

    requires
        index < expression@.len(),
        expression@[index as int] is While,
        guard_requires(tokenize, evaluate_condition),
        forall|name: String| #[trigger] call_requires(call_function, (name,)),
    ensures
        expression@[index as int] matches ASTNode::While(w) && while_outcome_ok(
            tokenize,
            evaluate_condition,
            w.condition,
            expression@,
            index + 1,
            old(ctx).variables@,
            final(ctx).variables@,
            fuel,
            r,
        ),
        r == Ok::<bool, CompileError>(true) ==> !final(ctx).in_loop,
{
    let ghost s = expression@;
    let ghost t0 = ctx.variables@;
    let condition: String = match &expression[index] {
        ASTNode::While(w) => w.condition.clone(),
        _ => {
            return Err(CompileError::UnhandledNode);
        },
    };
    // Binding the executable length puts the header index below
    // usize::MAX, so the body-start increment cannot overflow.
    let n = expression.len();
    let body_start = index + 1;
    let mut remaining = fuel;
    proof {
        assert(index < n);
    }
    let ghost mut k: nat = 0;
    loop
        invariant
            s == expression@,
            t0 == old(ctx).variables@,
            index < s.len(),
            body_start == index + 1,
            s[index as int] matches ASTNode::While(wn) && condition == wn.condition,
            k + remaining == fuel,
            passes_rel(tokenize, evaluate_condition, condition, s, index + 1, t0, k,
                ctx.variables@),
            guard_requires(tokenize, evaluate_condition),
            forall|name: String| #[trigger] call_requires(call_function, (name,)),
        decreases remaining,
    {
        let guard = evaluate_guard(&condition, &ctx.variables, tokenize, evaluate_condition);
        match guard {
            Ok(true) => {},
            Ok(false) => {
                ctx.in_loop = false;
                proof {
                    assert(passes_rel(tokenize, evaluate_condition, condition, s, index + 1, t0,
                        k, ctx.variables@));
                    assert(guard_yields(
                        tokenize,
                        evaluate_condition,
                        condition,
                        ctx.variables@,
                        false,
                    ));
                }
                return Ok(true);
            },
            Err(e) => {
                proof {
                    assert(passes_rel(tokenize, evaluate_condition, condition, s, index + 1, t0,
                        k, ctx.variables@));
                }
                return Err(e);
            },
        }
        if remaining == 0 {
            proof {
                assert(k == fuel);
                assert(passes_rel(tokenize, evaluate_condition, condition, s, index + 1, t0, k,
                    ctx.variables@));
                assert(guard_yields(tokenize, evaluate_condition, condition, ctx.variables@,
                    true));
            }
            return Err(CompileError::IterationLimit);
        }
        remaining = remaining - 1;
        ctx.in_loop = true;
        let ghost before = ctx.variables@;
        proof {
            assert(guard_yields(tokenize, evaluate_condition, condition, before, true));
        }
        let r = run_body_once(expression, body_start, ctx, tokenize, evaluate_condition,
            call_function);
        match r {
            Ok(true) => {
                proof {
                    lemma_passes_extend(tokenize, evaluate_condition, condition, s, index + 1,
                        t0, k, before, ctx.variables@);
                    k = k + 1;
                }
            },
            Ok(false) => {
                proof {
                    let j = choose|j: int|
                        body_start <= j < s.len() && #[trigger] pass_rel(
                            s,
                            body_start as int,
                            j,
                            before,
                            ctx.variables@,
                        ) && stmt_is_external(s, j);
                    assert(passes_rel(tokenize, evaluate_condition, condition, s, index + 1, t0,
                        k, before));
                    assert(while_partial(tokenize, evaluate_condition, condition, s, index + 1,
                        t0, ctx.variables@, j));
                }
                return Ok(false);
            },
            Err(e) => {
                proof {
                    let j = choose|j: int|
                        body_start <= j < s.len() && #[trigger] pass_rel(
                            s,
                            body_start as int,
                            j,
                            before,
                            ctx.variables@,
                        ) && (stmt_error(s, j, ctx.variables@) == Some(e) || stmt_is_external(
                            s,
                            j,
                        ));
                    assert(passes_rel(tokenize, evaluate_condition, condition, s, index + 1, t0,
                        k, before));
                    assert(while_partial(tokenize, evaluate_condition, condition, s, index + 1,
                        t0, ctx.variables@, j));
                }
                return Err(e);
            },
        }
    }
}

} // verus!
