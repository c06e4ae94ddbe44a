//! What holds of every record that the finder makes.
//!
//! A record is made only of a binding whose name passed a rule: a hook on the
//! strength of its name alone, a component only if its function also returns
//! what a component returns. The function in a record has a block for a body.

use crate::ast::{BlockStmtOrExprView, ExprView, PatView, StmtView, VarDeclaratorView};
use crate::component::{ComponentSegment, ComponentView};
use crate::error::FinderError;
use crate::find_components::{
    binding_found, binding_outcome, declarator_found, declarator_function, Verdict,
};
use crate::generic_fn::GenericFnView;
use crate::names::{inspect_error, is_component_name, is_hook_name};
use crate::traversal::{
    binding_trace, declarator_binding_trace, declarators_trace, expr_trace, exprs_trace,
    stmt_trace, stmts_trace, Trace,
};
use vstd::prelude::*;

verus! {

/// Whether a record is one that the rules allow.
pub open spec fn confirmed(c: ComponentView) -> bool {
    &&& inspect_error(c.name) is None
    &&& !c.function.has_expr_body()
    &&& c.segments == Map::<u64, ComponentSegment>::empty()
    &&& if c.is_hook {
        is_hook_name(c.name)
    } else {
        &&& is_component_name(c.name)
        &&& !is_hook_name(c.name)
        &&& c.function.component_shape() == Some(true)
    }
}

/// Whether every record of a list is one that the rules allow.
pub open spec fn all_confirmed(found: Seq<ComponentView>) -> bool {
    forall|i: int| 0 <= i < found.len() ==> confirmed(#[trigger] found[i])
}

/// Normalizing a function does not change whether it returns what a
/// component returns.
pub proof fn lemma_normalizing_keeps_shape(f: GenericFnView)
    ensures
        f.normalized().component_shape() == f.component_shape(),
        f.normalized().block() == f.block(),
{
}

/// The record of a binding, if one is made, is one that the rules allow.
pub proof fn lemma_binding_found_is_confirmed(name: Seq<char>, function: GenericFnView)
    ensures
        all_confirmed(binding_found(name, function)),
        binding_found(name, function).len() <= 1,
        binding_found(name, function).len() == 1 <==> (binding_outcome(name, function) == Ok::<
            Verdict,
            FinderError,
        >(Verdict::Hook) || binding_outcome(name, function) == Ok::<Verdict, FinderError>(
            Verdict::Component,
        )),
{
    lemma_normalizing_keeps_shape(function);
}

/// Two lists of allowed records, one after the other, are a list of allowed
/// records.
pub proof fn lemma_all_confirmed_concat(a: Seq<ComponentView>, b: Seq<ComponentView>)
    requires
        all_confirmed(a),
        all_confirmed(b),
    ensures
        all_confirmed(a + b),
{
}

/// The record of a declarator, if one is made, is one that the rules allow.
pub proof fn lemma_declarator_found_is_confirmed(d: VarDeclaratorView)
    ensures
        all_confirmed(declarator_found(d)),
{
    match (d.name, declarator_function(d)) {
        (PatView::Ident(name), Some(function)) => {
            lemma_binding_found_is_confirmed(name, function);
        },
        _ => {},
    }
}

/// A part whose records are allowed, followed by another such part.
proof fn lemma_followed_by_confirmed(a: Trace, b: Trace)
    requires
        all_confirmed(a.found),
        all_confirmed(b.found),
    ensures
        all_confirmed(a.followed_by(b).found),
{
    lemma_all_confirmed_concat(a.found, b.found);
}

/// Every record that the walk of an expression makes is allowed.
pub proof fn lemma_expr_trace_is_confirmed(e: ExprView)
    ensures
        all_confirmed(expr_trace(e).found),
    decreases e,
{
    match e {
        ExprView::Fn { ident, function } => match function.body {
            Some(b) => {
                lemma_stmts_trace_is_confirmed(b.stmts);
            },
            None => {},
        },
        ExprView::Arrow(a) => match a.body {
            BlockStmtOrExprView::BlockStmt(b) => {
                lemma_stmts_trace_is_confirmed(b.stmts);
            },
            BlockStmtOrExprView::Expr(inner) => {
                lemma_expr_trace_is_confirmed(*inner);
            },
        },
        ExprView::Other(operands) => {
            lemma_exprs_trace_is_confirmed(operands);
        },
        _ => {},
    }
}

/// Every record that the walk of a list of expressions makes is allowed.
pub proof fn lemma_exprs_trace_is_confirmed(es: Seq<ExprView>)
    ensures
        all_confirmed(exprs_trace(es).found),
    decreases es,
{
    if es.len() > 0 {
        lemma_exprs_trace_is_confirmed(es.drop_last());
        lemma_expr_trace_is_confirmed(es.last());
        lemma_followed_by_confirmed(exprs_trace(es.drop_last()), expr_trace(es.last()));
    }
}

/// Every record that the walk of a list of declarators makes is allowed.
pub proof fn lemma_declarators_trace_is_confirmed(ds: Seq<VarDeclaratorView>)
    ensures
        all_confirmed(declarators_trace(ds).found),
    decreases ds,
{
    if ds.len() > 0 {
        let d = ds.last();
        lemma_declarators_trace_is_confirmed(ds.drop_last());
        lemma_declarator_found_is_confirmed(d);
        let nested = match d.init {
            Some(e) => expr_trace(e),
            None => Trace::nothing(),
        };
        match d.init {
            Some(e) => {
                lemma_expr_trace_is_confirmed(e);
            },
            None => {},
        }
        lemma_followed_by_confirmed(declarator_binding_trace(d), nested);
        lemma_followed_by_confirmed(
            declarators_trace(ds.drop_last()),
            declarator_binding_trace(d).followed_by(nested),
        );
    }
}

/// Every record that the walk of a statement makes is allowed.
pub proof fn lemma_stmt_trace_is_confirmed(s: StmtView)
    ensures
        all_confirmed(stmt_trace(s).found),
    decreases s,
{
    match s {
        StmtView::Empty => {},
        StmtView::Expr(e) => {
            lemma_expr_trace_is_confirmed(e);
        },
        StmtView::Return(arg) => match arg {
            Some(e) => {
                lemma_expr_trace_is_confirmed(e);
            },
            None => {},
        },
        StmtView::Block(b) => {
            lemma_stmts_trace_is_confirmed(b.stmts);
        },
        StmtView::If { test, cons, alt } => {
            let t3 = match alt {
                Some(a) => stmt_trace(*a),
                None => Trace::nothing(),
            };
            lemma_expr_trace_is_confirmed(test);
            lemma_stmt_trace_is_confirmed(*cons);
            match alt {
                Some(a) => {
                    lemma_stmt_trace_is_confirmed(*a);
                },
                None => {},
            }
            lemma_followed_by_confirmed(stmt_trace(*cons), t3);
            lemma_followed_by_confirmed(expr_trace(test), stmt_trace(*cons).followed_by(t3));
        },
        StmtView::Loop { init, cond, body } => {
            let t1 = match init {
                Some(d) => declarators_trace(d.decls),
                None => Trace::nothing(),
            };
            let t2 = match cond {
                Some(e) => expr_trace(e),
                None => Trace::nothing(),
            };
            match init {
                Some(d) => {
                    lemma_declarators_trace_is_confirmed(d.decls);
                },
                None => {},
            }
            match cond {
                Some(e) => {
                    lemma_expr_trace_is_confirmed(e);
                },
                None => {},
            }
            lemma_stmt_trace_is_confirmed(*body);
            lemma_followed_by_confirmed(t2, stmt_trace(*body));
            lemma_followed_by_confirmed(t1, t2.followed_by(stmt_trace(*body)));
        },
        StmtView::Try { block, handler, finalizer } => {
            let t2 = match handler {
                Some(b) => stmts_trace(b.stmts),
                None => Trace::nothing(),
            };
            let t3 = match finalizer {
                Some(b) => stmts_trace(b.stmts),
                None => Trace::nothing(),
            };
            lemma_stmts_trace_is_confirmed(block.stmts);
            match handler {
                Some(b) => {
                    lemma_stmts_trace_is_confirmed(b.stmts);
                },
                None => {},
            }
            match finalizer {
                Some(b) => {
                    lemma_stmts_trace_is_confirmed(b.stmts);
                },
                None => {},
            }
            lemma_followed_by_confirmed(t2, t3);
            lemma_followed_by_confirmed(stmts_trace(block.stmts), t2.followed_by(t3));
        },
        StmtView::FnDecl(f) => {
            let t2 = match f.function.body {
                Some(b) => stmts_trace(b.stmts),
                None => Trace::nothing(),
            };
            lemma_binding_found_is_confirmed(f.ident, GenericFnView::Function(f.function));
            match f.function.body {
                Some(b) => {
                    lemma_stmts_trace_is_confirmed(b.stmts);
                },
                None => {},
            }
            lemma_followed_by_confirmed(
                binding_trace(f.ident, GenericFnView::Function(f.function)),
                t2,
            );
        },
        StmtView::VarDecl(d) => {
            lemma_declarators_trace_is_confirmed(d.decls);
        },
        StmtView::Other { exprs, stmts } => {
            lemma_exprs_trace_is_confirmed(exprs);
            lemma_stmts_trace_is_confirmed(stmts);
            lemma_followed_by_confirmed(exprs_trace(exprs), stmts_trace(stmts));
        },
    }
}

/// Every record that the walk of a file makes is allowed: whatever the file
/// holds, no hook is recorded but for its name, and no component but for its
/// name and for what it returns.
pub proof fn lemma_stmts_trace_is_confirmed(ss: Seq<StmtView>)
    ensures
        all_confirmed(stmts_trace(ss).found),
    decreases ss,
{
    if ss.len() > 0 {
        lemma_stmts_trace_is_confirmed(ss.drop_last());
        lemma_stmt_trace_is_confirmed(ss.last());
        lemma_followed_by_confirmed(stmts_trace(ss.drop_last()), stmt_trace(ss.last()));
    }
}

} // verus!
