//! Access to the parts of an expression that is a function.

use crate::ast::{BlockStmt, BlockStmtOrExpr, Expr, ExprView, Pat, PatView};
use crate::error::InternalError;
use vstd::prelude::*;

verus! {

/// A borrowed function body.
#[derive(Debug, PartialEq, Eq)]
pub enum BodyRef<'a> {
    Block(&'a BlockStmt),
    Expr(&'a Expr),
}

/// The parameters of a callee, as views: the patterns of an arrow or of a
/// function expression, and nothing for any other expression.
pub open spec fn callee_params(callee: ExprView) -> Option<Seq<PatView>> {
    match callee {
        ExprView::Arrow(a) => Some(a.params),
        ExprView::Fn { ident, function } => Some(function.params),
        _ => None,
    }
}

/// The patterns of the parameters of `callee`, in order, where `callee` is
/// an arrow or a function expression.
pub fn find_params<'a>(callee: &'a Expr) -> (r: Option<Vec<&'a Pat>>)
    ensures
        match callee_params(callee@) {
            Some(params) => {
                &&& r is Some
                &&& r->Some_0@.len() == params.len()
                &&& forall|i: int|
                    0 <= i < params.len() ==> (#[trigger] r->Some_0@[i])@ == params[i]
            },
            None => r is None,
        },
{
    match callee {
        Expr::Arrow(callee) => Some(borrow_each(&callee.params)),
        Expr::Fn { ident, function } => Some(borrow_each(&function.params)),
        _ => None,
    }
}

/// A reference to each pattern of a list.
fn borrow_each<'a>(params: &'a Vec<Pat>) -> (r: Vec<&'a Pat>)
    ensures
        r@.len() == params@.len(),
        forall|i: int| 0 <= i < params@.len() ==> *(#[trigger] r@[i]) == params@[i],
{
    let mut r: Vec<&'a Pat> = Vec::new();
    let mut i: usize = 0;
    while i < params.len()
        invariant
            i <= params.len(),
            r@.len() == i,
            forall|j: int| 0 <= j < i ==> *(#[trigger] r@[j]) == params@[j],
        decreases params.len() - i,
    {
        r.push(&params[i]);
        i += 1;
    }
    r
}

/// The body of `callee`, where `callee` is an arrow or a function
/// expression. A function expression without a body is an error.
pub fn find_body<'a>(callee: &'a Expr) -> (r: Result<Option<BodyRef<'a>>, InternalError>)
    ensures
        match callee {
            Expr::Arrow(a) => match a.body {
                BlockStmtOrExpr::BlockStmt(b) => r == Ok::<Option<BodyRef<'a>>, InternalError>(
                    Some(BodyRef::Block(&b)),
                ),
                BlockStmtOrExpr::Expr(e) => r == Ok::<Option<BodyRef<'a>>, InternalError>(
                    Some(BodyRef::Expr(&*e)),
                ),
            },
            Expr::Fn { ident, function } => match function.body {
                Some(b) => r == Ok::<Option<BodyRef<'a>>, InternalError>(Some(BodyRef::Block(&b))),
                None => r == Err::<Option<BodyRef<'a>>, InternalError>(InternalError::MissingBody),
            },
            _ => r == Ok::<Option<BodyRef<'a>>, InternalError>(None),
        },
{
    match callee {
        Expr::Arrow(e) => match &e.body {
            BlockStmtOrExpr::BlockStmt(b) => Ok(Some(BodyRef::Block(b))),
            BlockStmtOrExpr::Expr(b) => Ok(Some(BodyRef::Expr(&**b))),
        },
        Expr::Fn { ident, function } => match &function.body {
            Some(b) => Ok(Some(BodyRef::Block(b))),
            None => Err(InternalError::MissingBody),
        },
        _ => Ok(None),
    }
}

} // verus!
