//! Deep copies of syntax trees. A copy has the view of the tree it was made
//! from.

use crate::ast::{
    declarators_view, exprs_view, opt_block_view, opt_expr_view, pats_view, stmts_view, ArrowExpr,
    BlockStmt, BlockStmtOrExpr, Expr, FnDecl, Function, Lit, Pat, Program, Stmt, VarDecl,
    VarDeclarator,
};
use vstd::prelude::*;

verus! {

impl Clone for Lit {
    fn clone(&self) -> (r: Self)
        ensures
            r@ == self@,
    {
        match self {
            Lit::Null => Lit::Null,
            Lit::Bool(b) => Lit::Bool(*b),
            Lit::Num(n) => Lit::Num(*n),
            Lit::Str(s) => Lit::Str(s.clone()),
        }
    }
}

impl Clone for Pat {
    fn clone(&self) -> (r: Self)
        ensures
            r@ == self@,
    {
        match self {
            Pat::Ident(s) => Pat::Ident(s.clone()),
            Pat::Other => Pat::Other,
        }
    }
}

/// A copy of an optional name.
pub fn clone_name(name: &Option<String>) -> (r: Option<String>)
    ensures
        r == *name,
{
    match name {
        Some(s) => Some(s.clone()),
        None => None,
    }
}

/// A copy of a list of patterns.
pub fn clone_pats(v: &Vec<Pat>) -> (r: Vec<Pat>)
    ensures
        pats_view(r@) == pats_view(v@),
{
    let mut r: Vec<Pat> = Vec::new();
    let mut i: usize = 0;
    while i < v.len()
        invariant
            i <= v.len(),
            r.len() == i,
            forall|j: int| 0 <= j < i ==> r@[j]@ == v@[j]@,
        decreases v.len() - i,
    {
        r.push(v[i].clone());
        i += 1;
    }
    r
}

/// A copy of a list of statements.
pub fn clone_stmts(v: &Vec<Stmt>) -> (r: Vec<Stmt>)
    ensures
        stmts_view(r@) == stmts_view(v@),
    decreases v,
{
    let mut r: Vec<Stmt> = Vec::new();
    let mut i: usize = 0;
    while i < v.len()
        invariant
            i <= v.len(),
            r.len() == i,
            forall|j: int| 0 <= j < i ==> r@[j]@ == v@[j]@,
        decreases v.len() - i,
    {
        r.push(v[i].clone());
        i += 1;
    }
    r
}

/// A copy of a list of expressions.
pub fn clone_exprs(v: &Vec<Expr>) -> (r: Vec<Expr>)
    ensures
        exprs_view(r@) == exprs_view(v@),
    decreases v,
{
    let mut r: Vec<Expr> = Vec::new();
    let mut i: usize = 0;
    while i < v.len()
        invariant
            i <= v.len(),
            r.len() == i,
            forall|j: int| 0 <= j < i ==> r@[j]@ == v@[j]@,
        decreases v.len() - i,
    {
        r.push(v[i].clone());
        i += 1;
    }
    r
}

/// A copy of a list of declarators.
pub fn clone_declarators(v: &Vec<VarDeclarator>) -> (r: Vec<VarDeclarator>)
    ensures
        declarators_view(r@) == declarators_view(v@),
    decreases v,
{
    let mut r: Vec<VarDeclarator> = Vec::new();
    let mut i: usize = 0;
    while i < v.len()
        invariant
            i <= v.len(),
            r.len() == i,
            forall|j: int| 0 <= j < i ==> r@[j]@ == v@[j]@,
        decreases v.len() - i,
    {
        r.push(v[i].clone());
        i += 1;
    }
    r
}

/// A copy of an optional block.
pub fn clone_opt_block(b: &Option<BlockStmt>) -> (r: Option<BlockStmt>)
    ensures
        opt_block_view(r) == opt_block_view(*b),
    decreases b,
{
    match b {
        Some(b) => Some(b.clone()),
        None => None,
    }
}

/// A copy of an optional expression.
pub fn clone_opt_expr(e: &Option<Expr>) -> (r: Option<Expr>)
    ensures
        opt_expr_view(r) == opt_expr_view(*e),
    decreases e,
{
    match e {
        Some(e) => Some(e.clone()),
        None => None,
    }
}

impl Clone for BlockStmt {
    fn clone(&self) -> (r: Self)
        ensures
            r@ == self@,
        decreases self,
    {
        BlockStmt { stmts: clone_stmts(&self.stmts) }
    }
}

impl Clone for BlockStmtOrExpr {
    fn clone(&self) -> (r: Self)
        ensures
            r@ == self@,
        decreases self,
    {
        match self {
            BlockStmtOrExpr::BlockStmt(b) => BlockStmtOrExpr::BlockStmt(b.clone()),
            BlockStmtOrExpr::Expr(e) => BlockStmtOrExpr::Expr(Box::new((&**e).clone())),
        }
    }
}

impl Clone for Function {
    fn clone(&self) -> (r: Self)
        ensures
            r@ == self@,
        decreases self,
    {
        Function {
            params: clone_pats(&self.params),
            body: clone_opt_block(&self.body),
            is_async: self.is_async,
            is_generator: self.is_generator,
        }
    }
}

impl Clone for ArrowExpr {
    fn clone(&self) -> (r: Self)
        ensures
            r@ == self@,
        decreases self,
    {
        ArrowExpr {
            params: clone_pats(&self.params),
            body: self.body.clone(),
            is_async: self.is_async,
            is_generator: self.is_generator,
        }
    }
}

impl Clone for Expr {
    fn clone(&self) -> (r: Self)
        ensures
            r@ == self@,
        decreases self,
    {
        match self {
            Expr::JsxElement(tag) => Expr::JsxElement(tag.clone()),
            Expr::JsxFragment => Expr::JsxFragment,
            Expr::Lit(l) => Expr::Lit(l.clone()),
            Expr::Ident(s) => Expr::Ident(s.clone()),
            Expr::Fn { ident, function } => Expr::Fn {
                ident: clone_name(ident),
                function: function.clone(),
            },
            Expr::Arrow(a) => Expr::Arrow(a.clone()),
            Expr::Other(operands) => Expr::Other(clone_exprs(operands)),
        }
    }
}

impl Clone for FnDecl {
    fn clone(&self) -> (r: Self)
        ensures
            r@ == self@,
        decreases self,
    {
        FnDecl {
            ident: self.ident.clone(),
            declare: self.declare,
            function: self.function.clone(),
        }
    }
}

impl Clone for VarDeclarator {
    fn clone(&self) -> (r: Self)
        ensures
            r@ == self@,
        decreases self,
    {
        VarDeclarator {
            name: self.name.clone(),
            init: clone_opt_expr(&self.init),
            definite: self.definite,
        }
    }
}

impl Clone for VarDecl {
    fn clone(&self) -> (r: Self)
        ensures
            r@ == self@,
        decreases self,
    {
        VarDecl {
            kind: self.kind,
            declare: self.declare,
            decls: clone_declarators(&self.decls),
        }
    }
}

impl Clone for Stmt {
    fn clone(&self) -> (r: Self)
        ensures
            r@ == self@,
        decreases self,
    {
        match self {
            Stmt::Empty => Stmt::Empty,
            Stmt::Expr(e) => Stmt::Expr(e.clone()),
            Stmt::Return(arg) => Stmt::Return(clone_opt_expr(arg)),
            Stmt::Block(b) => Stmt::Block(b.clone()),
            Stmt::If { test, cons, alt } => Stmt::If {
                test: test.clone(),
                cons: Box::new((&**cons).clone()),
                alt: match alt {
                    Some(s) => Some(Box::new((&**s).clone())),
                    None => None,
                },
            },
            Stmt::Loop { init, cond, body } => Stmt::Loop {
                init: match init {
                    Some(d) => Some(d.clone()),
                    None => None,
                },
                cond: clone_opt_expr(cond),
                body: Box::new((&**body).clone()),
            },
            Stmt::Try { block, handler, finalizer } => Stmt::Try {
                block: block.clone(),
                handler: clone_opt_block(handler),
                finalizer: clone_opt_block(finalizer),
            },
            Stmt::FnDecl(f) => Stmt::FnDecl(f.clone()),
            Stmt::VarDecl(d) => Stmt::VarDecl(d.clone()),
            Stmt::Other { exprs, stmts } => Stmt::Other {
                exprs: clone_exprs(exprs),
                stmts: clone_stmts(stmts),
            },
        }
    }
}

impl Clone for Program {
    fn clone(&self) -> (r: Self)
        ensures
            r@ == self@,
    {
        Program { body: clone_stmts(&self.body) }
    }
}

} // verus!
