//! What the walk leaves as it was.
//!
//! The walk rewrites the bodies of arrow functions that it confirms as
//! components, wherever they stand. It changes no statement of the function
//! in which such a binding stands into one of another kind, and no returned
//! expression into one of another form: whatever a function returned before
//! the walk, it returns after it, and the walk decides on it as before.

use crate::ast::{BlockStmtOrExprView, ExprView, StmtView, VarDeclaratorView};
use crate::confirmed::lemma_normalizing_keeps_shape;
use crate::find_components::{binding_outcome, declarator_outcome, normalized_init};
use crate::generic_fn::GenericFnView;
use crate::generic_fn::{lemma_single_return, returning_block};
use crate::returns_like_component::{
    is_component_shaped, lemma_nested_functions_do_not_count, stmt_alike, stmts_alike,
};
use crate::traversal::{
    declarators_rewritten, expr_rewritten, exprs_rewritten, function_rewritten, stmt_rewritten,
    stmts_rewritten,
};
use vstd::prelude::*;

verus! {

/// An expression is what a component may return after the walk exactly when
/// it was before.
pub proof fn lemma_rewritten_expr_keeps_its_form(e: ExprView)
    ensures
        is_component_shaped(expr_rewritten(e)) == is_component_shaped(e),
{
}

/// A statement differs from what the walk makes of it only in what stands
/// inside nested functions and declarations.
pub proof fn lemma_rewritten_stmt_is_alike(s: StmtView)
    ensures
        stmt_alike(s, stmt_rewritten(s)),
    decreases s,
{
    match s {
        StmtView::Return(arg) => match arg {
            Some(e) => {
                lemma_rewritten_expr_keeps_its_form(e);
            },
            None => {},
        },
        StmtView::Block(b) => {
            lemma_rewritten_stmts_are_alike(b.stmts);
        },
        StmtView::If { test, cons, alt } => {
            lemma_rewritten_stmt_is_alike(*cons);
            match alt {
                Some(a) => {
                    lemma_rewritten_stmt_is_alike(*a);
                },
                None => {},
            }
        },
        StmtView::Loop { init, cond, body } => {
            lemma_rewritten_stmt_is_alike(*body);
        },
        StmtView::Try { block, handler, finalizer } => {
            lemma_rewritten_stmts_are_alike(block.stmts);
            match handler {
                Some(b) => {
                    lemma_rewritten_stmts_are_alike(b.stmts);
                },
                None => {},
            }
            match finalizer {
                Some(b) => {
                    lemma_rewritten_stmts_are_alike(b.stmts);
                },
                None => {},
            }
        },
        StmtView::Other { exprs, stmts } => {
            lemma_rewritten_stmts_are_alike(stmts);
        },
        _ => {},
    }
}

/// [`lemma_rewritten_stmt_is_alike`] for a list of statements.
pub proof fn lemma_rewritten_stmts_are_alike(ss: Seq<StmtView>)
    ensures
        stmts_alike(ss, stmts_rewritten(ss)),
    decreases ss,
{
    if ss.len() > 0 {
        let rewritten = stmts_rewritten(ss);
        assert(rewritten.drop_last() =~= stmts_rewritten(ss.drop_last()));
        lemma_rewritten_stmts_are_alike(ss.drop_last());
        lemma_rewritten_stmt_is_alike(ss.last());
    }
}

/// The walk of a function body does not change whether the function returns
/// what a component returns.
pub proof fn lemma_walk_keeps_shape(f: GenericFnView)
    ensures
        rewritten_function(f).component_shape() == f.component_shape(),
{
    match f.block() {
        Some(b) => {
            match f {
                GenericFnView::Function(_) => {
                    lemma_rewritten_stmts_are_alike(b.stmts);
                    lemma_nested_functions_do_not_count(b.stmts, stmts_rewritten(b.stmts));
                },
                GenericFnView::ArrowFunction(a) => match a.body {
                    BlockStmtOrExprView::BlockStmt(_) => {
                        lemma_rewritten_stmts_are_alike(b.stmts);
                        lemma_nested_functions_do_not_count(b.stmts, stmts_rewritten(b.stmts));
                    },
                    BlockStmtOrExprView::Expr(e) => {
                        lemma_rewritten_expr_keeps_its_form(*e);
                        lemma_single_return(*e);
                        lemma_single_return(expr_rewritten(*e));
                    },
                },
            }
        },
        None => {},
    }
}

/// A function after the walk of its body.
pub open spec fn rewritten_function(f: GenericFnView) -> GenericFnView {
    match f {
        GenericFnView::Function(function) => GenericFnView::Function(function_rewritten(function)),
        GenericFnView::ArrowFunction(a) => match expr_rewritten(ExprView::Arrow(a)) {
            ExprView::Arrow(rewritten) => GenericFnView::ArrowFunction(rewritten),
            _ => f,
        },
    }
}

/// The finder decides on a binding after the walk of its function as it
/// decided before: a second walk confirms what the first confirmed, and
/// nothing else.
pub proof fn lemma_walk_keeps_outcome(name: Seq<char>, f: GenericFnView)
    ensures
        binding_outcome(name, rewritten_function(f)) == binding_outcome(name, f),
{
    lemma_walk_keeps_shape(f);
}

/// The finder decides on a function as it decides on the same function
/// normalized.
pub proof fn lemma_normalizing_keeps_outcome(name: Seq<char>, f: GenericFnView)
    ensures
        binding_outcome(name, f.normalized()) == binding_outcome(name, f),
{
    lemma_normalizing_keeps_shape(f);
}

/// The finder decides on a declarator after the walk as it decided before.
pub proof fn lemma_walk_keeps_declarator_outcome(ds: Seq<VarDeclaratorView>, i: int)
    requires
        0 <= i < ds.len(),
    ensures
        declarator_outcome(declarators_rewritten(ds)[i]) == declarator_outcome(ds[i]),
{
    let d = ds[i];
    match d.init {
        Some(ExprView::Arrow(a)) => {
            let f = GenericFnView::ArrowFunction(a);
            match d.name {
                crate::ast::PatView::Ident(name) => {
                    lemma_walk_keeps_outcome(name, f);
                    lemma_normalizing_keeps_outcome(name, rewritten_function(f));
                },
                _ => {},
            }
        },
        Some(ExprView::Fn { ident, function }) => {
            let f = GenericFnView::Function(function);
            match d.name {
                crate::ast::PatView::Ident(name) => {
                    lemma_walk_keeps_outcome(name, f);
                },
                _ => {},
            }
        },
        _ => {},
    }
}

/// Normalizing an initializer twice gives what normalizing it once gives.
pub proof fn lemma_normalized_init_is_idempotent(e: ExprView)
    ensures
        normalized_init(normalized_init(e)) == normalized_init(e),
{
}

/// Walking an expression that was walked changes nothing.
pub proof fn lemma_expr_rewritten_is_idempotent(e: ExprView)
    ensures
        expr_rewritten(expr_rewritten(e)) == expr_rewritten(e),
    decreases e,
{
    match e {
        ExprView::Fn { ident, function } => match function.body {
            Some(b) => {
                lemma_stmts_rewritten_is_idempotent(b.stmts);
            },
            None => {},
        },
        ExprView::Arrow(a) => match a.body {
            BlockStmtOrExprView::BlockStmt(b) => {
                lemma_stmts_rewritten_is_idempotent(b.stmts);
            },
            BlockStmtOrExprView::Expr(inner) => {
                lemma_expr_rewritten_is_idempotent(*inner);
            },
        },
        ExprView::Other(operands) => {
            lemma_exprs_rewritten_is_idempotent(operands);
        },
        _ => {},
    }
}

/// Walking a list of expressions that was walked changes nothing.
pub proof fn lemma_exprs_rewritten_is_idempotent(es: Seq<ExprView>)
    ensures
        exprs_rewritten(exprs_rewritten(es)) == exprs_rewritten(es),
    decreases es,
{
    let once = exprs_rewritten(es);
    let twice = exprs_rewritten(once);
    assert forall|i: int| 0 <= i < es.len() implies twice[i] == once[i] by {
        lemma_expr_rewritten_is_idempotent(es[i]);
    }
}

/// Walking a list of declarators that was walked changes nothing.
pub proof fn lemma_declarators_rewritten_is_idempotent(ds: Seq<VarDeclaratorView>)
    ensures
        declarators_rewritten(declarators_rewritten(ds)) == declarators_rewritten(ds),
    decreases ds,
{
    let once = declarators_rewritten(ds);
    let twice = declarators_rewritten(once);
    assert forall|i: int| 0 <= i < ds.len() implies twice[i] == once[i] by {
        lemma_walk_keeps_declarator_outcome(ds, i);
        match ds[i].init {
            Some(e) => {
                lemma_expr_rewritten_is_idempotent(e);
                lemma_rewritten_normalized_init(e);
                lemma_normalized_init_is_idempotent(expr_rewritten(e));
            },
            None => {},
        }
    }
}

/// Walking a normalized initializer that was walked before it was normalized
/// changes nothing.
pub proof fn lemma_rewritten_normalized_init(e: ExprView)
    requires
        expr_rewritten(expr_rewritten(e)) == expr_rewritten(e),
    ensures
        expr_rewritten(normalized_init(expr_rewritten(e))) == normalized_init(expr_rewritten(e)),
{
    match expr_rewritten(e) {
        ExprView::Arrow(a) => match a.body {
            BlockStmtOrExprView::Expr(inner) => {
                let block = returning_block(*inner);
                assert(stmts_rewritten(block.stmts) =~= block.stmts);
            },
            BlockStmtOrExprView::BlockStmt(_) => {},
        },
        _ => {},
    }
}

/// Walking a statement that was walked changes nothing.
pub proof fn lemma_stmt_rewritten_is_idempotent(s: StmtView)
    ensures
        stmt_rewritten(stmt_rewritten(s)) == stmt_rewritten(s),
    decreases s,
{
    match s {
        StmtView::Empty => {},
        StmtView::Expr(e) => {
            lemma_expr_rewritten_is_idempotent(e);
        },
        StmtView::Return(arg) => match arg {
            Some(e) => {
                lemma_expr_rewritten_is_idempotent(e);
            },
            None => {},
        },
        StmtView::Block(b) => {
            lemma_stmts_rewritten_is_idempotent(b.stmts);
        },
        StmtView::If { test, cons, alt } => {
            lemma_expr_rewritten_is_idempotent(test);
            lemma_stmt_rewritten_is_idempotent(*cons);
            match alt {
                Some(a) => {
                    lemma_stmt_rewritten_is_idempotent(*a);
                },
                None => {},
            }
        },
        StmtView::Loop { init, cond, body } => {
            match init {
                Some(d) => {
                    lemma_declarators_rewritten_is_idempotent(d.decls);
                },
                None => {},
            }
            match cond {
                Some(e) => {
                    lemma_expr_rewritten_is_idempotent(e);
                },
                None => {},
            }
            lemma_stmt_rewritten_is_idempotent(*body);
        },
        StmtView::Try { block, handler, finalizer } => {
            lemma_stmts_rewritten_is_idempotent(block.stmts);
            match handler {
                Some(b) => {
                    lemma_stmts_rewritten_is_idempotent(b.stmts);
                },
                None => {},
            }
            match finalizer {
                Some(b) => {
                    lemma_stmts_rewritten_is_idempotent(b.stmts);
                },
                None => {},
            }
        },
        StmtView::FnDecl(f) => match f.function.body {
            Some(b) => {
                lemma_stmts_rewritten_is_idempotent(b.stmts);
            },
            None => {},
        },
        StmtView::VarDecl(d) => {
            lemma_declarators_rewritten_is_idempotent(d.decls);
        },
        StmtView::Other { exprs, stmts } => {
            lemma_exprs_rewritten_is_idempotent(exprs);
            lemma_stmts_rewritten_is_idempotent(stmts);
        },
    }
}

/// Walking a file that was walked changes nothing: every component that the
/// first walk confirmed has a block for a body already, and the second walk
/// confirms the same bindings.
pub proof fn lemma_stmts_rewritten_is_idempotent(ss: Seq<StmtView>)
    ensures
        stmts_rewritten(stmts_rewritten(ss)) == stmts_rewritten(ss),
    decreases ss,
{
    let once = stmts_rewritten(ss);
    let twice = stmts_rewritten(once);
    assert forall|i: int| 0 <= i < ss.len() implies twice[i] == once[i] by {
        lemma_stmt_rewritten_is_idempotent(ss[i]);
    }
}

} // verus!
