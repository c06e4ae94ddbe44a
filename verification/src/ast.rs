//! The syntax tree that the pass reads and rewrites.
//!
//! The tree keeps what the pass looks at: which statements nest others, where
//! functions begin, what a `return` hands back, and how bindings are named.
//! Everything else about an expression is folded into [`Expr::Other`].
//!
//! Every node type has a view, a value of a mathematical twin type in which
//! strings are sequences of characters and vectors are sequences. Contracts
//! speak of views only: two trees with the same view are the same program.
//!
//! The views of statements, of expressions and of lists of them are defined
//! together, by recursion over the tree. The views of the other node types
//! are plain abbreviations on top of those.

use vstd::prelude::*;

verus! {

/// A literal value.
#[derive(Debug, PartialEq, Eq)]
pub enum Lit {
    Null,
    Bool(bool),
    Num(i64),
    Str(String),
}

/// A binding pattern: a plain identifier, or anything that destructures.
#[derive(Debug, PartialEq, Eq)]
pub enum Pat {
    Ident(String),
    Other,
}

/// A braced list of statements.
#[derive(Debug, PartialEq, Eq)]
pub struct BlockStmt {
    pub stmts: Vec<Stmt>,
}

/// The body of an arrow function: a block, or one bare expression.
#[derive(Debug, PartialEq, Eq)]
pub enum BlockStmtOrExpr {
    BlockStmt(BlockStmt),
    Expr(Box<Expr>),
}

/// What a function declaration and a function expression share. `body` is
/// `None` for a declaration without one, such as an overload signature.
#[derive(Debug, PartialEq, Eq)]
pub struct Function {
    pub params: Vec<Pat>,
    pub body: Option<BlockStmt>,
    pub is_async: bool,
    pub is_generator: bool,
}

/// An arrow function.
#[derive(Debug, PartialEq, Eq)]
pub struct ArrowExpr {
    pub params: Vec<Pat>,
    pub body: BlockStmtOrExpr,
    pub is_async: bool,
    pub is_generator: bool,
}

/// An expression.
#[derive(Debug, PartialEq, Eq)]
pub enum Expr {
    /// A markup element, by its tag.
    JsxElement(String),
    /// A markup fragment.
    JsxFragment,
    Lit(Lit),
    Ident(String),
    /// A function expression, named or not.
    Fn { ident: Option<String>, function: Function },
    Arrow(ArrowExpr),
    /// Any other expression, with its operands in source order.
    Other(Vec<Expr>),
}

/// `function ident(..) { .. }`
#[derive(Debug, PartialEq, Eq)]
pub struct FnDecl {
    pub ident: String,
    pub declare: bool,
    pub function: Function,
}

/// The keyword of a variable declaration.
#[derive(Debug, Clone, Copy, PartialEq, Eq, Structural)]
pub enum VarDeclKind {
    Var,
    Let,
    Const,
}

/// One `name = init` of a variable declaration.
#[derive(Debug, PartialEq, Eq)]
pub struct VarDeclarator {
    pub name: Pat,
    pub init: Option<Expr>,
    pub definite: bool,
}

/// `var`, `let` or `const` with its declarators.
#[derive(Debug, PartialEq, Eq)]
pub struct VarDecl {
    pub kind: VarDeclKind,
    pub declare: bool,
    pub decls: Vec<VarDeclarator>,
}

/// A statement.
#[derive(Debug, PartialEq, Eq)]
pub enum Stmt {
    /// A statement with nothing nested in it: empty, `break`, `continue`,
    /// `debugger`.
    Empty,
    /// An expression statement, or a `throw`.
    Expr(Expr),
    Return(Option<Expr>),
    Block(BlockStmt),
    If { test: Expr, cons: Box<Stmt>, alt: Option<Box<Stmt>> },
    /// Any loop. `init` is the declaration in the head of a `for`, `cond` the
    /// condition or the iterated expression.
    Loop { init: Option<VarDecl>, cond: Option<Expr>, body: Box<Stmt> },
    Try { block: BlockStmt, handler: Option<BlockStmt>, finalizer: Option<BlockStmt> },
    FnDecl(FnDecl),
    VarDecl(VarDecl),
    /// Any other statement that nests statements, such as a labeled
    /// statement, `with` or `switch`: the expressions directly in it, and
    /// the statements directly in it, each in source order.
    Other { exprs: Vec<Expr>, stmts: Vec<Stmt> },
}

/// A whole source file.
#[derive(Debug, PartialEq, Eq)]
pub struct Program {
    pub body: Vec<Stmt>,
}

/// The view of [`Lit`].
pub enum LitView {
    Null,
    Bool(bool),
    Num(i64),
    Str(Seq<char>),
}

/// The view of [`Pat`].
pub enum PatView {
    Ident(Seq<char>),
    Other,
}

/// The view of [`BlockStmt`].
pub struct BlockStmtView {
    pub stmts: Seq<StmtView>,
}

/// The view of [`BlockStmtOrExpr`].
pub enum BlockStmtOrExprView {
    BlockStmt(BlockStmtView),
    Expr(Box<ExprView>),
}

/// The view of [`Function`].
pub struct FunctionView {
    pub params: Seq<PatView>,
    pub body: Option<BlockStmtView>,
    pub is_async: bool,
    pub is_generator: bool,
}

/// The view of [`ArrowExpr`].
pub struct ArrowExprView {
    pub params: Seq<PatView>,
    pub body: BlockStmtOrExprView,
    pub is_async: bool,
    pub is_generator: bool,
}

/// The view of [`Expr`].
pub enum ExprView {
    JsxElement(Seq<char>),
    JsxFragment,
    Lit(LitView),
    Ident(Seq<char>),
    Fn { ident: Option<Seq<char>>, function: FunctionView },
    Arrow(ArrowExprView),
    Other(Seq<ExprView>),
}

/// The view of [`FnDecl`].
pub struct FnDeclView {
    pub ident: Seq<char>,
    pub declare: bool,
    pub function: FunctionView,
}

/// The view of [`VarDeclarator`].
pub struct VarDeclaratorView {
    pub name: PatView,
    pub init: Option<ExprView>,
    pub definite: bool,
}

/// The view of [`VarDecl`].
pub struct VarDeclView {
    pub kind: VarDeclKind,
    pub declare: bool,
    pub decls: Seq<VarDeclaratorView>,
}

/// The view of [`Program`].
pub struct ProgramView {
    pub body: Seq<StmtView>,
}

/// The view of [`Stmt`].
pub enum StmtView {
    Empty,
    Expr(ExprView),
    Return(Option<ExprView>),
    Block(BlockStmtView),
    If { test: ExprView, cons: Box<StmtView>, alt: Option<Box<StmtView>> },
    Loop { init: Option<VarDeclView>, cond: Option<ExprView>, body: Box<StmtView> },
    Try { block: BlockStmtView, handler: Option<BlockStmtView>, finalizer: Option<BlockStmtView> },
    FnDecl(FnDeclView),
    VarDecl(VarDeclView),
    Other { exprs: Seq<ExprView>, stmts: Seq<StmtView> },
}

/// The view of a literal.
pub open spec fn lit_view(l: Lit) -> LitView {
    match l {
        Lit::Null => LitView::Null,
        Lit::Bool(b) => LitView::Bool(b),
        Lit::Num(n) => LitView::Num(n),
        Lit::Str(s) => LitView::Str(s@),
    }
}

/// The view of a pattern.
pub open spec fn pat_view(p: Pat) -> PatView {
    match p {
        Pat::Ident(s) => PatView::Ident(s@),
        Pat::Other => PatView::Other,
    }
}

/// The views of a list of patterns, one for one.
pub open spec fn pats_view(v: Seq<Pat>) -> Seq<PatView> {
    Seq::new(v.len(), |i: int| pat_view(v[i]))
}

/// The views of a list of statements, one for one.
pub open spec fn stmts_view(v: Seq<Stmt>) -> Seq<StmtView>
    decreases v,
{
    Seq::new(
        v.len(),
        |i: int|
            if 0 <= i < v.len() {
                stmt_view(v[i])
            } else {
                arbitrary()
            },
    )
}

/// The views of a list of expressions, one for one.
pub open spec fn exprs_view(v: Seq<Expr>) -> Seq<ExprView>
    decreases v,
{
    Seq::new(
        v.len(),
        |i: int|
            if 0 <= i < v.len() {
                expr_view(v[i])
            } else {
                arbitrary()
            },
    )
}

/// The views of a list of declarators, one for one.
pub open spec fn declarators_view(v: Seq<VarDeclarator>) -> Seq<VarDeclaratorView>
    decreases v,
{
    Seq::new(
        v.len(),
        |i: int|
            if 0 <= i < v.len() {
                VarDeclaratorView {
                    name: pat_view(v[i].name),
                    init: match v[i].init {
                        Some(e) => Some(expr_view(e)),
                        None => None,
                    },
                    definite: v[i].definite,
                }
            } else {
                arbitrary()
            },
    )
}

/// The view of an expression.
pub open spec fn expr_view(e: Expr) -> ExprView
    decreases e,
{
    match e {
        Expr::JsxElement(tag) => ExprView::JsxElement(tag@),
        Expr::JsxFragment => ExprView::JsxFragment,
        Expr::Lit(l) => ExprView::Lit(lit_view(l)),
        Expr::Ident(s) => ExprView::Ident(s@),
        Expr::Fn { ident, function } => ExprView::Fn {
            ident: match ident {
                Some(s) => Some(s@),
                None => None,
            },
            function: FunctionView {
                params: pats_view(function.params@),
                body: match function.body {
                    Some(b) => Some(BlockStmtView { stmts: stmts_view(b.stmts@) }),
                    None => None,
                },
                is_async: function.is_async,
                is_generator: function.is_generator,
            },
        },
        Expr::Arrow(a) => ExprView::Arrow(
            ArrowExprView {
                params: pats_view(a.params@),
                body: match a.body {
                    BlockStmtOrExpr::BlockStmt(b) => BlockStmtOrExprView::BlockStmt(
                        BlockStmtView { stmts: stmts_view(b.stmts@) },
                    ),
                    BlockStmtOrExpr::Expr(e) => BlockStmtOrExprView::Expr(Box::new(expr_view(*e))),
                },
                is_async: a.is_async,
                is_generator: a.is_generator,
            },
        ),
        Expr::Other(operands) => ExprView::Other(exprs_view(operands@)),
    }
}

/// The view of a statement.
pub open spec fn stmt_view(s: Stmt) -> StmtView
    decreases s,
{
    match s {
        Stmt::Empty => StmtView::Empty,
        Stmt::Expr(e) => StmtView::Expr(expr_view(e)),
        Stmt::Return(arg) => StmtView::Return(
            match arg {
                Some(e) => Some(expr_view(e)),
                None => None,
            },
        ),
        Stmt::Block(b) => StmtView::Block(BlockStmtView { stmts: stmts_view(b.stmts@) }),
        Stmt::If { test, cons, alt } => StmtView::If {
            test: expr_view(test),
            cons: Box::new(stmt_view(*cons)),
            alt: match alt {
                Some(a) => Some(Box::new(stmt_view(*a))),
                None => None,
            },
        },
        Stmt::Loop { init, cond, body } => StmtView::Loop {
            init: match init {
                Some(d) => Some(
                    VarDeclView {
                        kind: d.kind,
                        declare: d.declare,
                        decls: declarators_view(d.decls@),
                    },
                ),
                None => None,
            },
            cond: match cond {
                Some(e) => Some(expr_view(e)),
                None => None,
            },
            body: Box::new(stmt_view(*body)),
        },
        Stmt::Try { block, handler, finalizer } => StmtView::Try {
            block: BlockStmtView { stmts: stmts_view(block.stmts@) },
            handler: match handler {
                Some(b) => Some(BlockStmtView { stmts: stmts_view(b.stmts@) }),
                None => None,
            },
            finalizer: match finalizer {
                Some(b) => Some(BlockStmtView { stmts: stmts_view(b.stmts@) }),
                None => None,
            },
        },
        Stmt::FnDecl(f) => StmtView::FnDecl(
            FnDeclView {
                ident: f.ident@,
                declare: f.declare,
                function: FunctionView {
                    params: pats_view(f.function.params@),
                    body: match f.function.body {
                        Some(b) => Some(BlockStmtView { stmts: stmts_view(b.stmts@) }),
                        None => None,
                    },
                    is_async: f.function.is_async,
                    is_generator: f.function.is_generator,
                },
            },
        ),
        Stmt::VarDecl(d) => StmtView::VarDecl(
            VarDeclView { kind: d.kind, declare: d.declare, decls: declarators_view(d.decls@) },
        ),
        Stmt::Other { exprs, stmts } => StmtView::Other {
            exprs: exprs_view(exprs@),
            stmts: stmts_view(stmts@),
        },
    }
}

/// The view of an expression that may be absent.
pub open spec fn opt_expr_view(e: Option<Expr>) -> Option<ExprView> {
    match e {
        Some(e) => Some(expr_view(e)),
        None => None,
    }
}

/// The view of a block.
pub open spec fn block_view(b: BlockStmt) -> BlockStmtView {
    BlockStmtView { stmts: stmts_view(b.stmts@) }
}

/// The view of a block that may be absent.
pub open spec fn opt_block_view(b: Option<BlockStmt>) -> Option<BlockStmtView> {
    match b {
        Some(b) => Some(BlockStmtView { stmts: stmts_view(b.stmts@) }),
        None => None,
    }
}

/// The view of the body of an arrow function.
pub open spec fn body_view(b: BlockStmtOrExpr) -> BlockStmtOrExprView {
    match b {
        BlockStmtOrExpr::BlockStmt(b) => BlockStmtOrExprView::BlockStmt(
            BlockStmtView { stmts: stmts_view(b.stmts@) },
        ),
        BlockStmtOrExpr::Expr(e) => BlockStmtOrExprView::Expr(Box::new(expr_view(*e))),
    }
}

/// The view of a function.
pub open spec fn function_view(f: Function) -> FunctionView {
    FunctionView {
        params: pats_view(f.params@),
        body: match f.body {
            Some(b) => Some(BlockStmtView { stmts: stmts_view(b.stmts@) }),
            None => None,
        },
        is_async: f.is_async,
        is_generator: f.is_generator,
    }
}

/// The view of an arrow function.
pub open spec fn arrow_view(a: ArrowExpr) -> ArrowExprView {
    ArrowExprView {
        params: pats_view(a.params@),
        body: match a.body {
            BlockStmtOrExpr::BlockStmt(b) => BlockStmtOrExprView::BlockStmt(
                BlockStmtView { stmts: stmts_view(b.stmts@) },
            ),
            BlockStmtOrExpr::Expr(e) => BlockStmtOrExprView::Expr(Box::new(expr_view(*e))),
        },
        is_async: a.is_async,
        is_generator: a.is_generator,
    }
}

/// The view of a function declaration.
pub open spec fn fn_decl_view(f: FnDecl) -> FnDeclView {
    FnDeclView { ident: f.ident@, declare: f.declare, function: function_view(f.function) }
}

/// The view of a declarator.
pub open spec fn declarator_view(d: VarDeclarator) -> VarDeclaratorView {
    VarDeclaratorView {
        name: pat_view(d.name),
        init: match d.init {
            Some(e) => Some(expr_view(e)),
            None => None,
        },
        definite: d.definite,
    }
}

/// The view of a variable declaration.
pub open spec fn var_decl_view(d: VarDecl) -> VarDeclView {
    VarDeclView { kind: d.kind, declare: d.declare, decls: declarators_view(d.decls@) }
}

impl View for Lit {
    type V = LitView;

    open spec fn view(&self) -> LitView {
        lit_view(*self)
    }
}

impl View for Pat {
    type V = PatView;

    open spec fn view(&self) -> PatView {
        pat_view(*self)
    }
}

impl View for BlockStmt {
    type V = BlockStmtView;

    open spec fn view(&self) -> BlockStmtView {
        block_view(*self)
    }
}

impl View for BlockStmtOrExpr {
    type V = BlockStmtOrExprView;

    open spec fn view(&self) -> BlockStmtOrExprView {
        body_view(*self)
    }
}

impl View for Function {
    type V = FunctionView;

    open spec fn view(&self) -> FunctionView {
        function_view(*self)
    }
}

impl View for ArrowExpr {
    type V = ArrowExprView;

    open spec fn view(&self) -> ArrowExprView {
        arrow_view(*self)
    }
}

impl View for Expr {
    type V = ExprView;

    open spec fn view(&self) -> ExprView {
        expr_view(*self)
    }
}

impl View for FnDecl {
    type V = FnDeclView;

    open spec fn view(&self) -> FnDeclView {
        fn_decl_view(*self)
    }
}

impl View for VarDeclarator {
    type V = VarDeclaratorView;

    open spec fn view(&self) -> VarDeclaratorView {
        declarator_view(*self)
    }
}

impl View for VarDecl {
    type V = VarDeclView;

    open spec fn view(&self) -> VarDeclView {
        var_decl_view(*self)
    }
}

impl View for Stmt {
    type V = StmtView;

    open spec fn view(&self) -> StmtView {
        stmt_view(*self)
    }
}

impl View for Program {
    type V = ProgramView;

    open spec fn view(&self) -> ProgramView {
        ProgramView { body: stmts_view(self.body@) }
    }
}

} // verus!
