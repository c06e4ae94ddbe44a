//! One set of operations over the two forms of a function: a declared or
//! expressed `function`, and an arrow.

use crate::ast::{
    ArrowExpr, ArrowExprView, BlockStmt, BlockStmtOrExpr, BlockStmtOrExprView, BlockStmtView,
    Expr, ExprView, Function, FunctionView, Stmt, StmtView,
};
use crate::error::InternalError;
use crate::returns_like_component::{
    is_component_return_type, is_component_shaped, matches_component_shape, return_qualifies,
    stmt_returns, stmts_returns, ReturnTypeVisitorState, VisitReturnStatements,
};
use vstd::prelude::*;

verus! {

/// A function in either of its two forms.
#[derive(Debug, PartialEq, Eq)]
pub enum GenericFn {
    Function(Function),
    ArrowFunction(ArrowExpr),
}

/// The view of [`GenericFn`].
pub enum GenericFnView {
    Function(FunctionView),
    ArrowFunction(ArrowExprView),
}

impl View for GenericFn {
    type V = GenericFnView;

    open spec fn view(&self) -> GenericFnView {
        match *self {
            GenericFn::Function(f) => GenericFnView::Function(f@),
            GenericFn::ArrowFunction(a) => GenericFnView::ArrowFunction(a@),
        }
    }
}

/// The block that holds `return e;` and nothing else.
pub open spec fn returning_block(e: ExprView) -> BlockStmtView {
    BlockStmtView { stmts: seq![StmtView::Return(Some(e))] }
}

impl GenericFnView {
    /// The body: a block, the bare expression of an arrow, or nothing.
    pub open spec fn body(self) -> Option<BlockStmtOrExprView> {
        match self {
            GenericFnView::Function(f) => match f.body {
                Some(b) => Some(BlockStmtOrExprView::BlockStmt(b)),
                None => None,
            },
            GenericFnView::ArrowFunction(a) => Some(a.body),
        }
    }

    /// The same function with `block` as its body.
    pub open spec fn with_body(self, block: BlockStmtView) -> Self {
        match self {
            GenericFnView::Function(f) => GenericFnView::Function(
                FunctionView {
                    params: f.params,
                    body: Some(block),
                    is_async: f.is_async,
                    is_generator: f.is_generator,
                },
            ),
            GenericFnView::ArrowFunction(a) => GenericFnView::ArrowFunction(
                ArrowExprView {
                    params: a.params,
                    body: BlockStmtOrExprView::BlockStmt(block),
                    is_async: a.is_async,
                    is_generator: a.is_generator,
                },
            ),
        }
    }

    /// Whether the body is a bare expression.
    pub open spec fn has_expr_body(self) -> bool {
        self matches GenericFnView::ArrowFunction(a) && a.body is Expr
    }

    /// The same function with a block for a body: an arrow `=> e` becomes
    /// `=> { return e; }`, every other function stays as it is.
    pub open spec fn normalized(self) -> Self {
        match self {
            GenericFnView::ArrowFunction(a) => match a.body {
                BlockStmtOrExprView::Expr(e) => self.with_body(returning_block(*e)),
                BlockStmtOrExprView::BlockStmt(_) => self,
            },
            GenericFnView::Function(_) => self,
        }
    }

    /// The body after normalizing, which is a block or nothing.
    pub open spec fn block(self) -> Option<BlockStmtView> {
        match self.normalized().body() {
            Some(BlockStmtOrExprView::BlockStmt(b)) => Some(b),
            _ => None,
        }
    }

    /// Whether the function returns what a component returns; `None` where it
    /// has no body to look at.
    pub open spec fn component_shape(self) -> Option<bool> {
        match self.block() {
            Some(b) => Some(matches_component_shape(stmts_returns(b.stmts))),
            None => None,
        }
    }
}

impl Expr {
    /// The statement `return self;`.
    pub fn into_return_stmt(self) -> (r: Stmt)
        ensures
            r@ == StmtView::Return(Some(self@)),
    {
        Stmt::Return(Some(self))
    }
}

impl Clone for GenericFn {
    fn clone(&self) -> (r: Self)
        ensures
            r@ == self@,
    {
        match self {
            GenericFn::Function(f) => GenericFn::Function(f.clone()),
            GenericFn::ArrowFunction(a) => GenericFn::ArrowFunction(a.clone()),
        }
    }
}

impl GenericFn {
    /// A copy of the body. A function without a body has none to give.
    pub fn get_body(&self) -> (r: Result<BlockStmtOrExpr, InternalError>)
        ensures
            match self@.body() {
                Some(b) => r is Ok && r->Ok_0@ == b,
                None => r is Err && r->Err_0 == InternalError::MissingBody,
            },
    {
        match self {
            GenericFn::Function(f) => match &f.body {
                Some(body) => Ok(BlockStmtOrExpr::BlockStmt(body.clone())),
                None => Err(InternalError::MissingBody),
            },
            GenericFn::ArrowFunction(f) => Ok(f.body.clone()),
        }
    }

    /// Puts `body` in place of the body, whatever that was.
    pub fn update_body(&mut self, body: BlockStmt)
        ensures
            final(self)@ == old(self)@.with_body(body@),
    {
        match self {
            GenericFn::Function(f) => {
                f.body = Some(body);
            },
            GenericFn::ArrowFunction(f) => {
                f.body = BlockStmtOrExpr::BlockStmt(body);
            },
        }
    }

    /// Turns the bare expression of an arrow into a block that returns it.
    /// A function that has a block, or no body, is left as it is.
    pub fn ensure_body_block_stmt(&mut self)
        ensures
            final(self)@ == old(self)@.normalized(),
    {
        let mut block: Option<BlockStmt> = None;
        if let GenericFn::ArrowFunction(arrow_function) = self {
            if let BlockStmtOrExpr::Expr(expr) = &arrow_function.body {
                let return_arg = (&**expr).clone().into_return_stmt();
                let mut stmts: Vec<Stmt> = Vec::new();
                stmts.push(return_arg);
                let b = BlockStmt { stmts };
                assert(b@.stmts =~= returning_block(expr@).stmts);
                block = Some(b);
            }
        }
        if let Some(b) = block {
            self.update_body(b);
        }
    }

    /// Whether the function returns what a component returns, judged on the
    /// body as it is after normalizing. Without a body there is nothing to
    /// judge, and that is an error.
    pub fn return_type_matches_component(&self) -> (r: Result<bool, InternalError>)
        ensures
            match self@.component_shape() {
                Some(b) => r == Ok::<bool, InternalError>(b),
                None => r == Err::<bool, InternalError>(InternalError::MissingBody),
            },
    {
        match self {
            GenericFn::Function(f) => match &f.body {
                Some(block_stmt) => Ok(block_matches_component(block_stmt)),
                None => Err(InternalError::MissingBody),
            },
            GenericFn::ArrowFunction(f) => match &f.body {
                BlockStmtOrExpr::BlockStmt(block_stmt) => Ok(block_matches_component(block_stmt)),
                BlockStmtOrExpr::Expr(expr) => {
                    let r = is_component_return_type(&**expr);
                    proof {
                        lemma_single_return(expr@);
                    }
                    Ok(r)
                },
            },
        }
    }
}

/// Whether a block, taken as a function body, returns what a component
/// returns.
pub fn block_matches_component(block_stmt: &BlockStmt) -> (r: bool)
    ensures
        r == matches_component_shape(stmts_returns(block_stmt@.stmts)),
{
    let mut visitor: VisitReturnStatements = VisitReturnStatements::default();
    visitor.visit_block_stmt(block_stmt);
    proof {
        ReturnTypeVisitorState::lemma_verdict(stmts_returns(block_stmt@.stmts));
    }
    visitor.state.does_return_type_match_component()
}

/// A body that is `return e;` alone matches exactly when `e` is what a
/// component may return.
pub proof fn lemma_single_return(e: ExprView)
    ensures
        matches_component_shape(stmts_returns(returning_block(e).stmts)) == is_component_shaped(e),
{
    let ss = returning_block(e).stmts;
    assert(stmts_returns(ss.drop_last()) =~= Seq::empty());
    assert(stmt_returns(ss.last()) =~= seq![Some(e)]);
    let rs = stmts_returns(ss);
    assert(return_qualifies(rs[0]) == is_component_shaped(e));
}

/// Normalizing twice gives what normalizing once gives.
pub proof fn lemma_normalized_is_idempotent(f: GenericFnView)
    ensures
        f.normalized().normalized() == f.normalized(),
        !f.normalized().has_expr_body(),
{
}

} // verus!
