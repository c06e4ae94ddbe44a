//! The walk of the finder over a declaration, a statement or a whole tree.
//!
//! Every function declaration and every variable declaration is visited,
//! however deep it stands, in source order: a binding is decided before what
//! is nested in its function. The walk stops at the first binding that cannot
//! be decided; what it found until then stays found.
//!
//! `fold_fn_decl` and `fold_var_decl` handle one declaration with all that is
//! nested in it; `walk_program` handles a file.

use crate::ast::{
    declarators_view, exprs_view, opt_block_view, opt_expr_view, stmts_view, ArrowExpr,
    ArrowExprView, BlockStmt, BlockStmtOrExpr, BlockStmtOrExprView, BlockStmtView, Expr, ExprView,
    FnDecl, FnDeclView, Function, FunctionView, Program, ProgramView, Stmt, StmtView, VarDecl,
    VarDeclView, VarDeclarator, VarDeclaratorView,
};
use crate::component::ComponentView;
use crate::copies::{clone_name, clone_pats};
use crate::error::FinderError;
use crate::find_components::{
    binding_found, binding_outcome, declarator_found, declarator_outcome, normalize_init,
    normalized_init, ComponentFinder, Verdict,
};
use crate::generic_fn::{GenericFn, GenericFnView};
use vstd::prelude::*;

verus! {

/// What walking a part of the tree leaves behind: the finds in order, up to
/// the first failure, and that failure if there was one.
pub struct Trace {
    pub found: Seq<ComponentView>,
    pub error: Option<FinderError>,
}

impl Trace {
    /// The trace of a part with no binding in it.
    pub open spec fn nothing() -> Trace {
        Trace { found: Seq::empty(), error: None }
    }

    /// The trace of this part followed by `next`, which is not walked if this
    /// part failed.
    pub open spec fn followed_by(self, next: Trace) -> Trace {
        if self.error is Some {
            self
        } else {
            Trace { found: self.found + next.found, error: next.error }
        }
    }
}

/// The trace of deciding one binding.
pub open spec fn binding_trace(name: Seq<char>, function: GenericFnView) -> Trace {
    Trace {
        found: binding_found(name, function),
        error: match binding_outcome(name, function) {
            Ok(_) => None,
            Err(e) => Some(e),
        },
    }
}

/// The trace of deciding one declarator, without what is nested in it.
pub open spec fn declarator_binding_trace(d: VarDeclaratorView) -> Trace {
    Trace {
        found: declarator_found(d),
        error: match declarator_outcome(d) {
            Ok(_) => None,
            Err(e) => Some(e),
        },
    }
}

/// The trace of walking an expression.
pub open spec fn expr_trace(e: ExprView) -> Trace
    decreases e,
{
    match e {
        ExprView::Fn { ident, function } => match function.body {
            Some(b) => stmts_trace(b.stmts),
            None => Trace::nothing(),
        },
        ExprView::Arrow(a) => match a.body {
            BlockStmtOrExprView::BlockStmt(b) => stmts_trace(b.stmts),
            BlockStmtOrExprView::Expr(e) => expr_trace(*e),
        },
        ExprView::Other(operands) => exprs_trace(operands),
        _ => Trace::nothing(),
    }
}

/// The trace of walking the expressions of a list, in order.
pub open spec fn exprs_trace(es: Seq<ExprView>) -> Trace
    decreases es,
{
    if es.len() == 0 {
        Trace::nothing()
    } else {
        exprs_trace(es.drop_last()).followed_by(expr_trace(es.last()))
    }
}

/// The trace of walking the declarators of a list, in order: each is
/// decided, then its initializer is walked.
pub open spec fn declarators_trace(ds: Seq<VarDeclaratorView>) -> Trace
    decreases ds,
{
    if ds.len() == 0 {
        Trace::nothing()
    } else {
        declarators_trace(ds.drop_last()).followed_by(
            declarator_binding_trace(ds.last()).followed_by(
                match ds.last().init {
                    Some(e) => expr_trace(e),
                    None => Trace::nothing(),
                },
            ),
        )
    }
}

/// The trace of walking a statement.
pub open spec fn stmt_trace(s: StmtView) -> Trace
    decreases s,
{
    match s {
        StmtView::Empty => Trace::nothing(),
        StmtView::Expr(e) => expr_trace(e),
        StmtView::Return(arg) => match arg {
            Some(e) => expr_trace(e),
            None => Trace::nothing(),
        },
        StmtView::Block(b) => stmts_trace(b.stmts),
        StmtView::If { test, cons, alt } => expr_trace(test).followed_by(
            stmt_trace(*cons).followed_by(
                match alt {
                    Some(a) => stmt_trace(*a),
                    None => Trace::nothing(),
                },
            ),
        ),
        StmtView::Loop { init, cond, body } => (match init {
            Some(d) => declarators_trace(d.decls),
            None => Trace::nothing(),
        }).followed_by(
            (match cond {
                Some(e) => expr_trace(e),
                None => Trace::nothing(),
            }).followed_by(stmt_trace(*body)),
        ),
        StmtView::Try { block, handler, finalizer } => stmts_trace(block.stmts).followed_by(
            (match handler {
                Some(b) => stmts_trace(b.stmts),
                None => Trace::nothing(),
            }).followed_by(
                match finalizer {
                    Some(b) => stmts_trace(b.stmts),
                    None => Trace::nothing(),
                },
            ),
        ),
        StmtView::FnDecl(f) => binding_trace(
            f.ident,
            GenericFnView::Function(f.function),
        ).followed_by(
            match f.function.body {
                Some(b) => stmts_trace(b.stmts),
                None => Trace::nothing(),
            },
        ),
        StmtView::VarDecl(d) => declarators_trace(d.decls),
        StmtView::Other { exprs, stmts } => exprs_trace(exprs).followed_by(stmts_trace(stmts)),
    }
}

/// The trace of walking the statements of a list, in order.
pub open spec fn stmts_trace(ss: Seq<StmtView>) -> Trace
    decreases ss,
{
    if ss.len() == 0 {
        Trace::nothing()
    } else {
        stmts_trace(ss.drop_last()).followed_by(stmt_trace(ss.last()))
    }
}

/// An expression as the walk leaves it.
pub open spec fn expr_rewritten(e: ExprView) -> ExprView
    decreases e,
{
    match e {
        ExprView::Fn { ident, function } => ExprView::Fn {
            ident,
            function: FunctionView {
                params: function.params,
                body: match function.body {
                    Some(b) => Some(BlockStmtView { stmts: stmts_rewritten(b.stmts) }),
                    None => None,
                },
                is_async: function.is_async,
                is_generator: function.is_generator,
            },
        },
        ExprView::Arrow(a) => ExprView::Arrow(
            ArrowExprView {
                params: a.params,
                body: match a.body {
                    BlockStmtOrExprView::BlockStmt(b) => BlockStmtOrExprView::BlockStmt(
                        BlockStmtView { stmts: stmts_rewritten(b.stmts) },
                    ),
                    BlockStmtOrExprView::Expr(e) => BlockStmtOrExprView::Expr(
                        Box::new(expr_rewritten(*e)),
                    ),
                },
                is_async: a.is_async,
                is_generator: a.is_generator,
            },
        ),
        ExprView::Other(operands) => ExprView::Other(exprs_rewritten(operands)),
        _ => e,
    }
}

/// The expressions of a list as the walk leaves them, one for one.
pub open spec fn exprs_rewritten(es: Seq<ExprView>) -> Seq<ExprView>
    decreases es,
{
    Seq::new(
        es.len(),
        |i: int|
            if 0 <= i < es.len() {
                expr_rewritten(es[i])
            } else {
                arbitrary()
            },
    )
}

/// The declarators of a list as the walk leaves them, one for one: the
/// initializer is walked, and that of a confirmed component is normalized.
pub open spec fn declarators_rewritten(ds: Seq<VarDeclaratorView>) -> Seq<VarDeclaratorView>
    decreases ds,
{
    Seq::new(
        ds.len(),
        |i: int|
            if 0 <= i < ds.len() {
                VarDeclaratorView {
                    name: ds[i].name,
                    init: match ds[i].init {
                        Some(e) => Some(
                            if declarator_outcome(ds[i]) == Ok::<Verdict, FinderError>(
                                Verdict::Component,
                            ) {
                                normalized_init(expr_rewritten(e))
                            } else {
                                expr_rewritten(e)
                            },
                        ),
                        None => None,
                    },
                    definite: ds[i].definite,
                }
            } else {
                arbitrary()
            },
    )
}

/// A statement as the walk leaves it.
pub open spec fn stmt_rewritten(s: StmtView) -> StmtView
    decreases s,
{
    match s {
        StmtView::Empty => s,
        StmtView::Expr(e) => StmtView::Expr(expr_rewritten(e)),
        StmtView::Return(arg) => StmtView::Return(
            match arg {
                Some(e) => Some(expr_rewritten(e)),
                None => None,
            },
        ),
        StmtView::Block(b) => StmtView::Block(BlockStmtView { stmts: stmts_rewritten(b.stmts) }),
        StmtView::If { test, cons, alt } => StmtView::If {
            test: expr_rewritten(test),
            cons: Box::new(stmt_rewritten(*cons)),
            alt: match alt {
                Some(a) => Some(Box::new(stmt_rewritten(*a))),
                None => None,
            },
        },
        StmtView::Loop { init, cond, body } => StmtView::Loop {
            init: match init {
                Some(d) => Some(
                    VarDeclView {
                        kind: d.kind,
                        declare: d.declare,
                        decls: declarators_rewritten(d.decls),
                    },
                ),
                None => None,
            },
            cond: match cond {
                Some(e) => Some(expr_rewritten(e)),
                None => None,
            },
            body: Box::new(stmt_rewritten(*body)),
        },
        StmtView::Try { block, handler, finalizer } => StmtView::Try {
            block: BlockStmtView { stmts: stmts_rewritten(block.stmts) },
            handler: match handler {
                Some(b) => Some(BlockStmtView { stmts: stmts_rewritten(b.stmts) }),
                None => None,
            },
            finalizer: match finalizer {
                Some(b) => Some(BlockStmtView { stmts: stmts_rewritten(b.stmts) }),
                None => None,
            },
        },
        StmtView::FnDecl(f) => StmtView::FnDecl(
            FnDeclView {
                ident: f.ident,
                declare: f.declare,
                function: FunctionView {
                    params: f.function.params,
                    body: match f.function.body {
                        Some(b) => Some(BlockStmtView { stmts: stmts_rewritten(b.stmts) }),
                        None => None,
                    },
                    is_async: f.function.is_async,
                    is_generator: f.function.is_generator,
                },
            },
        ),
        StmtView::VarDecl(d) => StmtView::VarDecl(
            VarDeclView { kind: d.kind, declare: d.declare, decls: declarators_rewritten(d.decls) },
        ),
        StmtView::Other { exprs, stmts } => StmtView::Other {
            exprs: exprs_rewritten(exprs),
            stmts: stmts_rewritten(stmts),
        },
    }
}

/// The statements of a list as the walk leaves them, one for one.
pub open spec fn stmts_rewritten(ss: Seq<StmtView>) -> Seq<StmtView>
    decreases ss,
{
    Seq::new(
        ss.len(),
        |i: int|
            if 0 <= i < ss.len() {
                stmt_rewritten(ss[i])
            } else {
                arbitrary()
            },
    )
}

/// The trace of an expression that may be absent.
pub open spec fn opt_expr_trace(e: Option<ExprView>) -> Trace {
    match e {
        Some(e) => expr_trace(e),
        None => Trace::nothing(),
    }
}

/// An expression that may be absent, as the walk leaves it.
pub open spec fn opt_expr_rewritten(e: Option<ExprView>) -> Option<ExprView> {
    match e {
        Some(e) => Some(expr_rewritten(e)),
        None => None,
    }
}

/// The trace of a block that may be absent.
pub open spec fn opt_block_trace(b: Option<BlockStmtView>) -> Trace {
    match b {
        Some(b) => stmts_trace(b.stmts),
        None => Trace::nothing(),
    }
}

/// A block that may be absent, as the walk leaves it.
pub open spec fn opt_block_rewritten(b: Option<BlockStmtView>) -> Option<BlockStmtView> {
    match b {
        Some(b) => Some(BlockStmtView { stmts: stmts_rewritten(b.stmts) }),
        None => None,
    }
}

/// A function as the walk leaves it: its body is walked.
pub open spec fn function_rewritten(f: FunctionView) -> FunctionView {
    FunctionView {
        params: f.params,
        body: opt_block_rewritten(f.body),
        is_async: f.is_async,
        is_generator: f.is_generator,
    }
}

/// A walk that failed within the first `k` statements went no further.
pub proof fn lemma_stmts_trace_stops(ss: Seq<StmtView>, k: int)
    requires
        0 <= k <= ss.len(),
        stmts_trace(ss.take(k)).error is Some,
    ensures
        stmts_trace(ss) == stmts_trace(ss.take(k)),
    decreases ss.len() - k,
{
    if k == ss.len() {
        assert(ss.take(k) =~= ss);
    } else {
        let next = ss.take(k + 1);
        assert(next.drop_last() =~= ss.take(k));
        lemma_stmts_trace_stops(ss, k + 1);
    }
}

/// A walk that failed within the first `k` expressions went no further.
pub proof fn lemma_exprs_trace_stops(es: Seq<ExprView>, k: int)
    requires
        0 <= k <= es.len(),
        exprs_trace(es.take(k)).error is Some,
    ensures
        exprs_trace(es) == exprs_trace(es.take(k)),
    decreases es.len() - k,
{
    if k == es.len() {
        assert(es.take(k) =~= es);
    } else {
        let next = es.take(k + 1);
        assert(next.drop_last() =~= es.take(k));
        lemma_exprs_trace_stops(es, k + 1);
    }
}

/// A walk that failed within the first `k` declarators went no further.
pub proof fn lemma_declarators_trace_stops(ds: Seq<VarDeclaratorView>, k: int)
    requires
        0 <= k <= ds.len(),
        declarators_trace(ds.take(k)).error is Some,
    ensures
        declarators_trace(ds) == declarators_trace(ds.take(k)),
    decreases ds.len() - k,
{
    if k == ds.len() {
        assert(ds.take(k) =~= ds);
    } else {
        let next = ds.take(k + 1);
        assert(next.drop_last() =~= ds.take(k));
        lemma_declarators_trace_stops(ds, k + 1);
    }
}

/// What was found after two parts in a row, the first of which did not fail.
proof fn lemma_step(before: Seq<ComponentView>, first: Trace, second: Trace)
    ensures
        first.error is None ==> (before + first.found) + second.found == before
            + first.followed_by(second).found,
        first.error is None ==> first.followed_by(second).error == second.error,
{
}

impl ComponentFinder {
    /// Walks an expression: the bodies of the functions in it, and its
    /// operands.
    pub fn walk_expr(&mut self, e: &Expr) -> (r: Result<Expr, FinderError>)
        ensures
            final(self).config_view() == old(self).config_view(),
            final(self).found() == old(self).found() + expr_trace(e@).found,
            match expr_trace(e@).error {
                None => r is Ok && r->Ok_0@ == expr_rewritten(e@),
                Some(err) => r is Err && r->Err_0 == err,
            },
        decreases e,
    {
        match e {
            Expr::Fn { ident, function } => {
                let body = match self.walk_opt_block(&function.body) {
                    Ok(b) => b,
                    Err(err) => {
                        return Err(err);
                    },
                };
                Ok(
                    Expr::Fn {
                        ident: clone_name(ident),
                        function: Function {
                            params: clone_pats(&function.params),
                            body,
                            is_async: function.is_async,
                            is_generator: function.is_generator,
                        },
                    },
                )
            },
            Expr::Arrow(a) => {
                let body = match &a.body {
                    BlockStmtOrExpr::BlockStmt(b) => match self.walk_stmts(&b.stmts) {
                        Ok(stmts) => BlockStmtOrExpr::BlockStmt(BlockStmt { stmts }),
                        Err(err) => {
                            return Err(err);
                        },
                    },
                    BlockStmtOrExpr::Expr(inner) => match self.walk_expr(&**inner) {
                        Ok(x) => BlockStmtOrExpr::Expr(Box::new(x)),
                        Err(err) => {
                            return Err(err);
                        },
                    },
                };
                Ok(
                    Expr::Arrow(
                        ArrowExpr {
                            params: clone_pats(&a.params),
                            body,
                            is_async: a.is_async,
                            is_generator: a.is_generator,
                        },
                    ),
                )
            },
            Expr::Other(operands) => match self.walk_exprs(operands) {
                Ok(v) => Ok(Expr::Other(v)),
                Err(err) => Err(err),
            },
            _ => Ok(e.clone()),
        }
    }

    /// Walks the expressions of a list, in order.
    pub fn walk_exprs(&mut self, v: &Vec<Expr>) -> (r: Result<Vec<Expr>, FinderError>)
        ensures
            final(self).config_view() == old(self).config_view(),
            final(self).found() == old(self).found() + exprs_trace(exprs_view(v@)).found,
            match exprs_trace(exprs_view(v@)).error {
                None => r is Ok && exprs_view(r->Ok_0@) == exprs_rewritten(exprs_view(v@)),
                Some(err) => r is Err && r->Err_0 == err,
            },
        decreases v,
    {
        let ghost views = exprs_view(v@);
        let mut out: Vec<Expr> = Vec::new();
        let mut i: usize = 0;
        while i < v.len()
            invariant
                i <= v.len(),
                views == exprs_view(v@),
                self.config_view() == old(self).config_view(),
                exprs_trace(views.take(i as int)).error is None,
                self.found() == old(self).found() + exprs_trace(views.take(i as int)).found,
                out.len() == i,
                forall|j: int| 0 <= j < i ==> (#[trigger] out@[j])@ == expr_rewritten(views[j]),
            decreases v.len() - i,
        {
            let ghost next = views.take(i + 1);
            proof {
                assert(next.drop_last() =~= views.take(i as int));
                lemma_step(
                    old(self).found(),
                    exprs_trace(views.take(i as int)),
                    expr_trace(v@[i as int]@),
                );
            }
            match self.walk_expr(&v[i]) {
                Ok(x) => {
                    out.push(x);
                },
                Err(err) => {
                    proof {
                        lemma_exprs_trace_stops(views, i + 1);
                    }
                    return Err(err);
                },
            }
            i += 1;
        }
        proof {
            assert(views.take(v.len() as int) =~= views);
        }
        Ok(out)
    }

    /// Walks an expression that may be absent.
    pub fn walk_opt_expr(&mut self, e: &Option<Expr>) -> (r: Result<Option<Expr>, FinderError>)
        ensures
            final(self).config_view() == old(self).config_view(),
            final(self).found() == old(self).found() + opt_expr_trace(opt_expr_view(*e)).found,
            match opt_expr_trace(opt_expr_view(*e)).error {
                None => r is Ok && opt_expr_view(r->Ok_0) == opt_expr_rewritten(opt_expr_view(*e)),
                Some(err) => r is Err && r->Err_0 == err,
            },
        decreases e,
    {
        match e {
            Some(e) => match self.walk_expr(e) {
                Ok(x) => Ok(Some(x)),
                Err(err) => Err(err),
            },
            None => Ok(None),
        }
    }

    /// Walks the statements of a list, in order.
    pub fn walk_stmts(&mut self, v: &Vec<Stmt>) -> (r: Result<Vec<Stmt>, FinderError>)
        ensures
            final(self).config_view() == old(self).config_view(),
            final(self).found() == old(self).found() + stmts_trace(stmts_view(v@)).found,
            match stmts_trace(stmts_view(v@)).error {
                None => r is Ok && stmts_view(r->Ok_0@) == stmts_rewritten(stmts_view(v@)),
                Some(err) => r is Err && r->Err_0 == err,
            },
        decreases v,
    {
        let ghost views = stmts_view(v@);
        let mut out: Vec<Stmt> = Vec::new();
        let mut i: usize = 0;
        while i < v.len()
            invariant
                i <= v.len(),
                views == stmts_view(v@),
                self.config_view() == old(self).config_view(),
                stmts_trace(views.take(i as int)).error is None,
                self.found() == old(self).found() + stmts_trace(views.take(i as int)).found,
                out.len() == i,
                forall|j: int| 0 <= j < i ==> (#[trigger] out@[j])@ == stmt_rewritten(views[j]),
            decreases v.len() - i,
        {
            let ghost next = views.take(i + 1);
            proof {
                assert(next.drop_last() =~= views.take(i as int));
                lemma_step(
                    old(self).found(),
                    stmts_trace(views.take(i as int)),
                    stmt_trace(v@[i as int]@),
                );
            }
            match self.walk_stmt(&v[i]) {
                Ok(x) => {
                    out.push(x);
                },
                Err(err) => {
                    proof {
                        lemma_stmts_trace_stops(views, i + 1);
                    }
                    return Err(err);
                },
            }
            i += 1;
        }
        proof {
            assert(views.take(v.len() as int) =~= views);
        }
        Ok(out)
    }

    /// Walks a block that may be absent.
    pub fn walk_opt_block(&mut self, b: &Option<BlockStmt>) -> (r: Result<
        Option<BlockStmt>,
        FinderError,
    >)
        ensures
            final(self).config_view() == old(self).config_view(),
            final(self).found() == old(self).found() + opt_block_trace(opt_block_view(*b)).found,
            match opt_block_trace(opt_block_view(*b)).error {
                None => r is Ok && opt_block_view(r->Ok_0) == opt_block_rewritten(
                    opt_block_view(*b),
                ),
                Some(err) => r is Err && r->Err_0 == err,
            },
        decreases b,
    {
        match b {
            Some(b) => match self.walk_stmts(&b.stmts) {
                Ok(stmts) => Ok(Some(BlockStmt { stmts })),
                Err(err) => Err(err),
            },
            None => Ok(None),
        }
    }

    /// Walks the declarators of a list, in order: each is decided, and then
    /// its initializer is walked.
    pub fn walk_declarators(&mut self, v: &Vec<VarDeclarator>) -> (r: Result<
        Vec<VarDeclarator>,
        FinderError,
    >)
        ensures
            final(self).config_view() == old(self).config_view(),
            final(self).found() == old(self).found() + declarators_trace(
                declarators_view(v@),
            ).found,
            match declarators_trace(declarators_view(v@)).error {
                None => r is Ok && declarators_view(r->Ok_0@) == declarators_rewritten(
                    declarators_view(v@),
                ),
                Some(err) => r is Err && r->Err_0 == err,
            },
        decreases v,
    {
        let ghost views = declarators_view(v@);
        let mut out: Vec<VarDeclarator> = Vec::new();
        let mut i: usize = 0;
        while i < v.len()
            invariant
                i <= v.len(),
                views == declarators_view(v@),
                self.config_view() == old(self).config_view(),
                declarators_trace(views.take(i as int)).error is None,
                self.found() == old(self).found() + declarators_trace(views.take(i as int)).found,
                out.len() == i,
                forall|j: int|
                    0 <= j < i ==> (#[trigger] out@[j])@ == declarators_rewritten(views)[j],
            decreases v.len() - i,
        {
            let decl = &v[i];
            let ghost d = decl@;
            let ghost next = views.take(i + 1);
            let ghost so_far = declarators_trace(views.take(i as int));
            let ghost binding = declarator_binding_trace(d);
            let ghost nested = opt_expr_trace(d.init);
            proof {
                assert(next.drop_last() =~= views.take(i as int));
                assert(declarators_trace(next) == so_far.followed_by(binding.followed_by(nested)));
                lemma_step(old(self).found(), so_far, binding.followed_by(nested));
            }
            let ghost before = self.found();
            let verdict = match self.register_declarator(decl) {
                Ok(verdict) => verdict,
                Err(err) => {
                    proof {
                        lemma_declarators_trace_stops(views, i + 1);
                    }
                    return Err(err);
                },
            };
            proof {
                lemma_step(before, binding, nested);
            }
            let init = match self.walk_opt_expr(&decl.init) {
                Ok(init) => init,
                Err(err) => {
                    proof {
                        lemma_declarators_trace_stops(views, i + 1);
                    }
                    return Err(err);
                },
            };
            let init = match init {
                Some(e) => match verdict {
                    Verdict::Component => Some(normalize_init(e)),
                    _ => Some(e),
                },
                None => None,
            };
            out.push(VarDeclarator { name: decl.name.clone(), init, definite: decl.definite });
            i += 1;
        }
        proof {
            assert(views.take(v.len() as int) =~= views);
        }
        Ok(out)
    }

    /// Walks a variable declaration.
    fn walk_var_decl(&mut self, d: &VarDecl) -> (r: Result<VarDecl, FinderError>)
        ensures
            final(self).config_view() == old(self).config_view(),
            final(self).found() == old(self).found() + declarators_trace(d@.decls).found,
            match declarators_trace(d@.decls).error {
                None => r is Ok && r->Ok_0@ == (VarDeclView {
                    kind: d@.kind,
                    declare: d@.declare,
                    decls: declarators_rewritten(d@.decls),
                }),
                Some(err) => r is Err && r->Err_0 == err,
            },
        decreases d,
    {
        match self.walk_declarators(&d.decls) {
            Ok(decls) => Ok(VarDecl { kind: d.kind, declare: d.declare, decls }),
            Err(err) => Err(err),
        }
    }

    /// Walks a conditional: the test, then the first branch, then the other.
    fn walk_if_stmt(
        &mut self,
        test: &Expr,
        cons: &Box<Stmt>,
        alt: &Option<Box<Stmt>>,
    ) -> (r: Result<Stmt, FinderError>)
        ensures
            final(self).config_view() == old(self).config_view(),
            ({
                let s = Stmt::If { test: *test, cons: *cons, alt: *alt };
                &&& final(self).found() == old(self).found() + stmt_trace(s@).found
                &&& match stmt_trace(s@).error {
                    None => r is Ok && r->Ok_0@ == stmt_rewritten(s@),
                    Some(err) => r is Err && r->Err_0 == err,
                }
            }),
        decreases (Stmt::If { test: *test, cons: *cons, alt: *alt }), 0nat,
    {
        let ghost s = Stmt::If { test: *test, cons: *cons, alt: *alt };
        let ghost start = self.found();
        let ghost t1 = expr_trace(test@);
        let ghost t2 = stmt_trace(cons@);
        let ghost t3 = match s@->alt {
            Some(a) => stmt_trace(*a),
            None => Trace::nothing(),
        };
        proof {
            assert(stmt_trace(s@) == t1.followed_by(t2.followed_by(t3)));
            lemma_step(start, t1, t2.followed_by(t3));
        }
        let new_test = match self.walk_expr(test) {
            Ok(x) => x,
            Err(err) => {
                return Err(err);
            },
        };
        proof {
            lemma_step(self.found(), t2, t3);
        }
        let new_cons = match self.walk_stmt(&**cons) {
            Ok(x) => x,
            Err(err) => {
                return Err(err);
            },
        };
        let new_alt = match alt {
            Some(a) => match self.walk_stmt(&**a) {
                Ok(x) => Some(Box::new(x)),
                Err(err) => {
                    return Err(err);
                },
            },
            None => None,
        };
        Ok(Stmt::If { test: new_test, cons: Box::new(new_cons), alt: new_alt })
    }

    /// Walks a loop: the declaration in its head, then its condition, then
    /// its body.
    fn walk_loop_stmt(
        &mut self,
        init: &Option<VarDecl>,
        cond: &Option<Expr>,
        body: &Box<Stmt>,
    ) -> (r: Result<Stmt, FinderError>)
        ensures
            final(self).config_view() == old(self).config_view(),
            ({
                let s = Stmt::Loop { init: *init, cond: *cond, body: *body };
                &&& final(self).found() == old(self).found() + stmt_trace(s@).found
                &&& match stmt_trace(s@).error {
                    None => r is Ok && r->Ok_0@ == stmt_rewritten(s@),
                    Some(err) => r is Err && r->Err_0 == err,
                }
            }),
        decreases (Stmt::Loop { init: *init, cond: *cond, body: *body }), 0nat,
    {
        let ghost s = Stmt::Loop { init: *init, cond: *cond, body: *body };
        let ghost start = self.found();
        let ghost t1 = match s@->init {
            Some(d) => declarators_trace(d.decls),
            None => Trace::nothing(),
        };
        let ghost t2 = opt_expr_trace(s@->cond);
        let ghost t3 = stmt_trace(body@);
        proof {
            assert(stmt_trace(s@) == t1.followed_by(t2.followed_by(t3)));
            lemma_step(start, t1, t2.followed_by(t3));
        }
        let new_init = match init {
            Some(d) => match self.walk_var_decl(d) {
                Ok(x) => Some(x),
                Err(err) => {
                    return Err(err);
                },
            },
            None => None,
        };
        proof {
            lemma_step(self.found(), t2, t3);
        }
        let new_cond = match self.walk_opt_expr(cond) {
            Ok(x) => x,
            Err(err) => {
                return Err(err);
            },
        };
        let new_body = match self.walk_stmt(&**body) {
            Ok(x) => x,
            Err(err) => {
                return Err(err);
            },
        };
        Ok(Stmt::Loop { init: new_init, cond: new_cond, body: Box::new(new_body) })
    }

    /// Walks a `try`: its block, then its handler, then its finalizer.
    fn walk_try_stmt(
        &mut self,
        block: &BlockStmt,
        handler: &Option<BlockStmt>,
        finalizer: &Option<BlockStmt>,
    ) -> (r: Result<Stmt, FinderError>)
        ensures
            final(self).config_view() == old(self).config_view(),
            ({
                let s = Stmt::Try { block: *block, handler: *handler, finalizer: *finalizer };
                &&& final(self).found() == old(self).found() + stmt_trace(s@).found
                &&& match stmt_trace(s@).error {
                    None => r is Ok && r->Ok_0@ == stmt_rewritten(s@),
                    Some(err) => r is Err && r->Err_0 == err,
                }
            }),
        decreases (Stmt::Try { block: *block, handler: *handler, finalizer: *finalizer }), 0nat,
    {
        let ghost s = Stmt::Try { block: *block, handler: *handler, finalizer: *finalizer };
        let ghost start = self.found();
        let ghost t1 = stmts_trace(block@.stmts);
        let ghost t2 = opt_block_trace(opt_block_view(*handler));
        let ghost t3 = opt_block_trace(opt_block_view(*finalizer));
        proof {
            assert(stmt_trace(s@) == t1.followed_by(t2.followed_by(t3)));
            lemma_step(start, t1, t2.followed_by(t3));
        }
        let new_block = match self.walk_stmts(&block.stmts) {
            Ok(stmts) => BlockStmt { stmts },
            Err(err) => {
                return Err(err);
            },
        };
        proof {
            lemma_step(self.found(), t2, t3);
        }
        let new_handler = match self.walk_opt_block(handler) {
            Ok(x) => x,
            Err(err) => {
                return Err(err);
            },
        };
        let new_finalizer = match self.walk_opt_block(finalizer) {
            Ok(x) => x,
            Err(err) => {
                return Err(err);
            },
        };
        Ok(Stmt::Try { block: new_block, handler: new_handler, finalizer: new_finalizer })
    }

    /// Walks a function declaration: the declaration is decided, then the
    /// body of its function is walked.
    fn walk_fn_decl(&mut self, f: &FnDecl) -> (r: Result<FnDecl, FinderError>)
        ensures
            final(self).config_view() == old(self).config_view(),
            ({
                let s = Stmt::FnDecl(*f);
                &&& final(self).found() == old(self).found() + stmt_trace(s@).found
                &&& match stmt_trace(s@).error {
                    None => r is Ok && StmtView::FnDecl(r->Ok_0@) == stmt_rewritten(s@),
                    Some(err) => r is Err && r->Err_0 == err,
                }
            }),
        decreases Stmt::FnDecl(*f), 0nat,
    {
        let ghost s = Stmt::FnDecl(*f);
        let ghost start = self.found();
        let ghost t1 = binding_trace(f@.ident, GenericFnView::Function(f@.function));
        let ghost t2 = opt_block_trace(f@.function.body);
        proof {
            assert(stmt_trace(s@) == t1.followed_by(t2));
            lemma_step(start, t1, t2);
        }
        match self.register_binding(&f.ident, GenericFn::Function(f.function.clone())) {
            Ok(_) => {},
            Err(err) => {
                return Err(err);
            },
        }
        let body = match self.walk_opt_block(&f.function.body) {
            Ok(b) => b,
            Err(err) => {
                return Err(err);
            },
        };
        Ok(
            FnDecl {
                ident: f.ident.clone(),
                declare: f.declare,
                function: Function {
                    params: clone_pats(&f.function.params),
                    body,
                    is_async: f.function.is_async,
                    is_generator: f.function.is_generator,
                },
            },
        )
    }

    /// Walks a statement of another kind: the expressions in it, then the
    /// statements in it.
    fn walk_other_stmt(&mut self, exprs: &Vec<Expr>, stmts: &Vec<Stmt>) -> (r: Result<
        Stmt,
        FinderError,
    >)
        ensures
            final(self).config_view() == old(self).config_view(),
            ({
                let s = Stmt::Other { exprs: *exprs, stmts: *stmts };
                &&& final(self).found() == old(self).found() + stmt_trace(s@).found
                &&& match stmt_trace(s@).error {
                    None => r is Ok && r->Ok_0@ == stmt_rewritten(s@),
                    Some(err) => r is Err && r->Err_0 == err,
                }
            }),
        decreases (Stmt::Other { exprs: *exprs, stmts: *stmts }), 0nat,
    {
        let ghost s = Stmt::Other { exprs: *exprs, stmts: *stmts };
        let ghost t1 = exprs_trace(exprs_view(exprs@));
        let ghost t2 = stmts_trace(stmts_view(stmts@));
        proof {
            assert(stmt_trace(s@) == t1.followed_by(t2));
            lemma_step(self.found(), t1, t2);
        }
        let new_exprs = match self.walk_exprs(exprs) {
            Ok(x) => x,
            Err(err) => {
                return Err(err);
            },
        };
        let new_stmts = match self.walk_stmts(stmts) {
            Ok(x) => x,
            Err(err) => {
                return Err(err);
            },
        };
        Ok(Stmt::Other { exprs: new_exprs, stmts: new_stmts })
    }

    /// Walks a statement.
    pub fn walk_stmt(&mut self, s: &Stmt) -> (r: Result<Stmt, FinderError>)
        ensures
            final(self).config_view() == old(self).config_view(),
            final(self).found() == old(self).found() + stmt_trace(s@).found,
            match stmt_trace(s@).error {
                None => r is Ok && r->Ok_0@ == stmt_rewritten(s@),
                Some(err) => r is Err && r->Err_0 == err,
            },
        decreases s, 1nat,
    {
        match s {
            Stmt::Empty => Ok(Stmt::Empty),
            Stmt::Expr(e) => match self.walk_expr(e) {
                Ok(x) => Ok(Stmt::Expr(x)),
                Err(err) => Err(err),
            },
            Stmt::Return(arg) => match self.walk_opt_expr(arg) {
                Ok(x) => Ok(Stmt::Return(x)),
                Err(err) => Err(err),
            },
            Stmt::Block(b) => match self.walk_stmts(&b.stmts) {
                Ok(stmts) => Ok(Stmt::Block(BlockStmt { stmts })),
                Err(err) => Err(err),
            },
            Stmt::If { test, cons, alt } => self.walk_if_stmt(test, cons, alt),
            Stmt::Loop { init, cond, body } => self.walk_loop_stmt(init, cond, body),
            Stmt::Try { block, handler, finalizer } => self.walk_try_stmt(
                block,
                handler,
                finalizer,
            ),
            Stmt::FnDecl(f) => match self.walk_fn_decl(f) {
                Ok(x) => Ok(Stmt::FnDecl(x)),
                Err(err) => Err(err),
            },
            Stmt::VarDecl(d) => match self.walk_var_decl(d) {
                Ok(x) => Ok(Stmt::VarDecl(x)),
                Err(err) => Err(err),
            },
            Stmt::Other { exprs, stmts } => self.walk_other_stmt(exprs, stmts),
        }
    }

    /// Handles a function declaration: the declaration is decided and, if it
    /// is a component or a hook, recorded; then everything nested in its
    /// function is handled in the same way, in source order. The declaration
    /// comes back with the arrow functions among the components nested in it
    /// normalized, and is otherwise as it went in.
    pub fn fold_fn_decl(&mut self, fn_decl: FnDecl) -> (r: Result<FnDecl, FinderError>)
        ensures
            final(self).config_view() == old(self).config_view(),
            final(self).found() == old(self).found() + stmt_trace(
                StmtView::FnDecl(fn_decl@),
            ).found,
            match stmt_trace(StmtView::FnDecl(fn_decl@)).error {
                None => r is Ok && StmtView::FnDecl(r->Ok_0@) == stmt_rewritten(
                    StmtView::FnDecl(fn_decl@),
                ),
                Some(err) => r is Err && r->Err_0 == err,
            },
    {
        self.walk_fn_decl(&fn_decl)
    }

    /// Handles a variable declaration: each declarator in order is decided
    /// and, if it binds a component or a hook, recorded; then everything
    /// nested in its initializer is handled in the same way. The declaration
    /// comes back with its declarators in their order, the arrow functions
    /// among the confirmed components normalized, and is otherwise as it went
    /// in. The first binding that cannot be decided ends it.
    pub fn fold_var_decl(&mut self, var_decl: VarDecl) -> (r: Result<VarDecl, FinderError>)
        ensures
            final(self).config_view() == old(self).config_view(),
            final(self).found() == old(self).found() + declarators_trace(var_decl@.decls).found,
            match declarators_trace(var_decl@.decls).error {
                None => r is Ok && r->Ok_0@ == (VarDeclView {
                    kind: var_decl@.kind,
                    declare: var_decl@.declare,
                    decls: declarators_rewritten(var_decl@.decls),
                }),
                Some(err) => r is Err && r->Err_0 == err,
            },
    {
        self.walk_var_decl(&var_decl)
    }

    /// Walks a whole file, from its first statement to its last.
    ///
    /// On success the file comes back with the arrow functions among its
    /// components normalized and nothing else changed, and every component
    /// and hook in it has been added to the finds, in source order. On
    /// failure the finds hold what was found before the failing binding.
    pub fn walk_program(&mut self, program: &Program) -> (r: Result<Program, FinderError>)
        ensures
            final(self).config_view() == old(self).config_view(),
            final(self).found() == old(self).found() + stmts_trace(program@.body).found,
            match stmts_trace(program@.body).error {
                None => r is Ok && r->Ok_0@ == (ProgramView {
                    body: stmts_rewritten(program@.body),
                }),
                Some(err) => r is Err && r->Err_0 == err,
            },
    {
        match self.walk_stmts(&program.body) {
            Ok(body) => Ok(Program { body }),
            Err(err) => Err(err),
        }
    }
}

} // verus!
