//! Decides whether a function body returns what a component returns.
//!
//! The walk looks at every `return` that belongs to the function itself:
//! blocks, conditionals, loops and `try` are looked into, nested functions of
//! any form are not. The body matches when it has at least one such `return`
//! and each of them hands back a markup element, a markup fragment or `null`.

use crate::ast::{
    opt_block_view, opt_expr_view, stmts_view, BlockStmt, BlockStmtView, Expr, ExprView, FnDecl,
    Lit, LitView, Stmt, StmtView,
};
use vstd::prelude::*;

verus! {

/// What a component may return: a markup element, a markup fragment, `null`.
pub open spec fn is_component_shaped(e: ExprView) -> bool {
    e is JsxElement || e is JsxFragment || e == ExprView::Lit(LitView::Null)
}

/// Whether one `return` qualifies, given its argument. A bare `return;` does
/// not.
pub open spec fn return_qualifies(arg: Option<ExprView>) -> bool {
    match arg {
        Some(e) => is_component_shaped(e),
        None => false,
    }
}

/// Whether every `return` of a list qualifies.
pub open spec fn all_qualify(rets: Seq<Option<ExprView>>) -> bool {
    forall|i: int| 0 <= i < rets.len() ==> return_qualifies(#[trigger] rets[i])
}

/// The verdict on a function, given the arguments of its own `return`s.
pub open spec fn matches_component_shape(rets: Seq<Option<ExprView>>) -> bool {
    rets.len() > 0 && all_qualify(rets)
}

/// The arguments of the `return`s in a statement that belong to the enclosing
/// function, in source order.
pub open spec fn stmt_returns(s: StmtView) -> Seq<Option<ExprView>>
    decreases s,
{
    match s {
        StmtView::Return(arg) => seq![arg],
        StmtView::Block(b) => stmts_returns(b.stmts),
        StmtView::If { test, cons, alt } => stmt_returns(*cons) + (match alt {
            Some(a) => stmt_returns(*a),
            None => Seq::empty(),
        }),
        StmtView::Loop { init, cond, body } => stmt_returns(*body),
        StmtView::Try { block, handler, finalizer } => stmts_returns(block.stmts) + (match handler {
            Some(b) => stmts_returns(b.stmts),
            None => Seq::empty(),
        }) + (match finalizer {
            Some(b) => stmts_returns(b.stmts),
            None => Seq::empty(),
        }),
        StmtView::Other { exprs, stmts } => stmts_returns(stmts),
        StmtView::Empty => Seq::empty(),
        StmtView::Expr(_) => Seq::empty(),
        StmtView::FnDecl(_) => Seq::empty(),
        StmtView::VarDecl(_) => Seq::empty(),
    }
}

/// [`stmt_returns`] of each statement of a list, joined in order.
pub open spec fn stmts_returns(ss: Seq<StmtView>) -> Seq<Option<ExprView>>
    decreases ss,
{
    if ss.len() == 0 {
        Seq::empty()
    } else {
        stmts_returns(ss.drop_last()) + stmt_returns(ss.last())
    }
}

/// [`stmts_returns`] of a block that may be absent.
pub open spec fn opt_block_returns(b: Option<BlockStmtView>) -> Seq<Option<ExprView>> {
    match b {
        Some(b) => stmts_returns(b.stmts),
        None => Seq::empty(),
    }
}

/// What the walk has seen so far.
#[derive(Debug, Clone, Copy, PartialEq, Eq, Structural)]
pub struct ReturnTypeVisitorState {
    /// No `return` seen so far failed to qualify.
    pub return_type_matches_component: bool,
    /// How many `return`s were seen; it stops counting at `u32::MAX`.
    pub return_count: u32,
}

impl ReturnTypeVisitorState {
    /// The state after seeing `returns` more.
    pub open spec fn after(self, rets: Seq<Option<ExprView>>) -> Self {
        ReturnTypeVisitorState {
            return_type_matches_component: self.return_type_matches_component && all_qualify(
                rets,
            ),
            return_count: if self.return_count + rets.len() >= u32::MAX {
                u32::MAX
            } else {
                (self.return_count + rets.len()) as u32
            },
        }
    }

    /// The state before anything was seen.
    pub open spec fn initial() -> Self {
        ReturnTypeVisitorState { return_type_matches_component: true, return_count: 0 }
    }

    /// Whether the body matches: at least one `return` was seen and none failed.
    pub fn does_return_type_match_component(&self) -> (r: bool)
        ensures
            r == (self.return_type_matches_component && self.return_count > 0),
    {
        self.return_type_matches_component && self.return_count > 0
    }

    /// Seeing nothing changes nothing.
    pub proof fn lemma_after_nothing(self)
        ensures
            self.after(Seq::empty()) == self,
    {
    }

    /// Seeing `a` and then `b` is seeing `a + b`.
    pub proof fn lemma_after_both(self, a: Seq<Option<ExprView>>, b: Seq<Option<ExprView>>)
        ensures
            self.after(a).after(b) == self.after(a + b),
    {
        let ab = a + b;
        if all_qualify(ab) {
            assert forall|i: int| 0 <= i < a.len() implies return_qualifies(#[trigger] a[i]) by {
                assert(ab[i] == a[i]);
            }
            assert forall|i: int| 0 <= i < b.len() implies return_qualifies(#[trigger] b[i]) by {
                assert(ab[i + a.len()] == b[i]);
            }
        }
    }

    /// From the initial state, the verdict is [`matches_component_shape`].
    pub proof fn lemma_verdict(rets: Seq<Option<ExprView>>)
        ensures
            ({
                let s = Self::initial().after(rets);
                (s.return_type_matches_component && s.return_count > 0) == matches_component_shape(
                    rets,
                )
            }),
    {
    }
}

impl Default for ReturnTypeVisitorState {
    fn default() -> (r: Self)
        ensures
            r == ReturnTypeVisitorState::initial(),
    {
        ReturnTypeVisitorState { return_type_matches_component: true, return_count: 0 }
    }
}

/// The walk over the statements of one function body.
#[derive(Debug)]
pub struct VisitReturnStatements {
    pub state: ReturnTypeVisitorState,
}

impl Default for VisitReturnStatements {
    fn default() -> (r: Self)
        ensures
            r.state == ReturnTypeVisitorState::initial(),
    {
        VisitReturnStatements { state: ReturnTypeVisitorState::default() }
    }
}

impl VisitReturnStatements {
    /// A nested function declaration is not looked into.
    pub fn visit_fn_decl(&mut self, _n: &FnDecl)
        ensures
            final(self).state == old(self).state,
    {
    }

    /// Counts one `return` and holds its argument against the rule.
    pub fn visit_return_stmt(&mut self, arg: &Option<Expr>)
        ensures
            final(self).state == old(self).state.after(seq![opt_expr_view(*arg)]),
    {
        if self.state.return_count < u32::MAX {
            self.state.return_count = self.state.return_count + 1;
        }
        let qualifies = match arg {
            Some(e) => is_component_return_type(e),
            None => false,
        };
        if !qualifies {
            self.state.return_type_matches_component = false;
        }
        proof {
            let rs = seq![opt_expr_view(*arg)];
            assert(rs[0] == opt_expr_view(*arg));
        }
    }

    /// Walks one statement.
    pub fn visit_stmt(&mut self, s: &Stmt)
        ensures
            final(self).state == old(self).state.after(stmt_returns(s@)),
        decreases s,
    {
        let ghost before = self.state;
        match s {
            Stmt::Return(arg) => {
                self.visit_return_stmt(arg);
            },
            Stmt::Block(b) => {
                self.visit_block_stmt(b);
            },
            Stmt::If { test, cons, alt } => {
                self.visit_stmt(&**cons);
                match alt {
                    Some(a) => {
                        self.visit_stmt(&**a);
                    },
                    None => {
                        proof {
                            self.state.lemma_after_nothing();
                        }
                    },
                }
                proof {
                    before.lemma_after_both(
                        stmt_returns(cons@),
                        match s@->If_alt {
                            Some(a) => stmt_returns(*a),
                            None => Seq::empty(),
                        },
                    );
                }
            },
            Stmt::Loop { init, cond, body } => {
                self.visit_stmt(&**body);
            },
            Stmt::Try { block, handler, finalizer } => {
                self.visit_block_stmt(block);
                self.visit_opt_block_stmt(handler);
                self.visit_opt_block_stmt(finalizer);
                proof {
                    let a = stmts_returns(block@.stmts);
                    let b = opt_block_returns(s@->Try_handler);
                    let c = opt_block_returns(s@->Try_finalizer);
                    before.lemma_after_both(a, b);
                    before.lemma_after_both(a + b, c);
                }
            },
            Stmt::Other { exprs, stmts } => {
                self.visit_stmts(stmts);
            },
            Stmt::FnDecl(f) => {
                self.visit_fn_decl(f);
                proof {
                    before.lemma_after_nothing();
                }
            },
            Stmt::Empty => {
                proof {
                    before.lemma_after_nothing();
                }
            },
            Stmt::Expr(_) => {
                proof {
                    before.lemma_after_nothing();
                }
            },
            Stmt::VarDecl(_) => {
                proof {
                    before.lemma_after_nothing();
                }
            },
        }
    }

    /// Walks the statements of a list, in order.
    pub fn visit_stmts(&mut self, stmts: &Vec<Stmt>)
        ensures
            final(self).state == old(self).state.after(stmts_returns(stmts_view(stmts@))),
        decreases stmts,
    {
        let ghost before = self.state;
        let ghost views = stmts_view(stmts@);
        let mut i: usize = 0;
        proof {
            before.lemma_after_nothing();
        }
        while i < stmts.len()
            invariant
                i <= stmts.len(),
                views == stmts_view(stmts@),
                self.state == before.after(stmts_returns(views.take(i as int))),
            decreases stmts.len() - i,
        {
            self.visit_stmt(&stmts[i]);
            proof {
                let next = views.take(i + 1);
                assert(next.drop_last() =~= views.take(i as int));
                before.lemma_after_both(
                    stmts_returns(views.take(i as int)),
                    stmt_returns(stmts@[i as int]@),
                );
            }
            i += 1;
        }
        proof {
            assert(views.take(stmts.len() as int) =~= views);
        }
    }

    /// Walks the statements of a block.
    pub fn visit_block_stmt(&mut self, b: &BlockStmt)
        ensures
            final(self).state == old(self).state.after(stmts_returns(b@.stmts)),
        decreases b,
    {
        self.visit_stmts(&b.stmts);
    }

    /// Walks a block that may be absent.
    pub fn visit_opt_block_stmt(&mut self, b: &Option<BlockStmt>)
        ensures
            final(self).state == old(self).state.after(opt_block_returns(opt_block_view(*b))),
        decreases b,
    {
        match b {
            Some(b) => {
                self.visit_block_stmt(b);
            },
            None => {
                proof {
                    self.state.lemma_after_nothing();
                }
            },
        }
    }
}

/// Whether an expression is what a component may return.
pub fn is_component_return_type(node: &Expr) -> (r: bool)
    ensures
        r == is_component_shaped(node@),
{
    match node {
        Expr::JsxElement(_) => true,
        Expr::JsxFragment => true,
        Expr::Lit(literal) => match literal {
            Lit::Null => true,
            _ => false,
        },
        _ => false,
    }
}

/// Whether a statement is one that the walk does not look into: it holds no
/// `return` of the enclosing function, whatever functions are nested in it.
pub open spec fn is_opaque(s: StmtView) -> bool {
    s is Empty || s is Expr || s is FnDecl || s is VarDecl
}

/// Whether two statements differ at most in what the walk does not look at:
/// in what stands inside nested functions and declarations, in expressions
/// that are not returned, and in returned expressions beyond whether they
/// qualify.
pub open spec fn stmt_alike(a: StmtView, b: StmtView) -> bool
    decreases a,
{
    match a {
        StmtView::Return(x) => b is Return && return_qualifies(x) == return_qualifies(b->Return_0),
        StmtView::Block(x) => b is Block && stmts_alike(x.stmts, b->Block_0.stmts),
        StmtView::If { test, cons, alt } => {
            &&& b is If
            &&& stmt_alike(*cons, *b->If_cons)
            &&& match alt {
                Some(p) => b->If_alt is Some && stmt_alike(*p, *b->If_alt->Some_0),
                None => b->If_alt is None,
            }
        },
        StmtView::Loop { init, cond, body } => b is Loop && stmt_alike(*body, *b->Loop_body),
        StmtView::Try { block, handler, finalizer } => {
            &&& b is Try
            &&& stmts_alike(block.stmts, b->Try_block.stmts)
            &&& match handler {
                Some(p) => b->Try_handler is Some && stmts_alike(
                    p.stmts,
                    b->Try_handler->Some_0.stmts,
                ),
                None => b->Try_handler is None,
            }
            &&& match finalizer {
                Some(p) => b->Try_finalizer is Some && stmts_alike(
                    p.stmts,
                    b->Try_finalizer->Some_0.stmts,
                ),
                None => b->Try_finalizer is None,
            }
        },
        StmtView::Other { exprs, stmts } => b is Other && stmts_alike(stmts, b->Other_stmts),
        _ => is_opaque(b),
    }
}

/// [`stmt_alike`], statement by statement.
pub open spec fn stmts_alike(a: Seq<StmtView>, b: Seq<StmtView>) -> bool
    decreases a,
{
    if a.len() == 0 {
        b.len() == 0
    } else {
        &&& b.len() == a.len()
        &&& stmts_alike(a.drop_last(), b.drop_last())
        &&& stmt_alike(a.last(), b.last())
    }
}

/// For each `return` of a list, whether it qualifies.
pub open spec fn qualifications(rets: Seq<Option<ExprView>>) -> Seq<bool> {
    Seq::new(rets.len(), |i: int| return_qualifies(rets[i]))
}

/// The answer on a body depends on no more than which of its `return`s
/// qualify.
pub proof fn lemma_shape_from_qualifications(a: Seq<Option<ExprView>>, b: Seq<Option<ExprView>>)
    requires
        qualifications(a) == qualifications(b),
    ensures
        matches_component_shape(a) == matches_component_shape(b),
{
    let qa = qualifications(a);
    let qb = qualifications(b);
    assert(a.len() == qa.len() && b.len() == qb.len());
    if all_qualify(a) {
        assert forall|i: int| 0 <= i < b.len() implies return_qualifies(#[trigger] b[i]) by {
            assert(qa[i] == return_qualifies(a[i]));
            assert(qb[i] == return_qualifies(b[i]));
        }
    }
    if all_qualify(b) {
        assert forall|i: int| 0 <= i < a.len() implies return_qualifies(#[trigger] a[i]) by {
            assert(qa[i] == return_qualifies(a[i]));
            assert(qb[i] == return_qualifies(b[i]));
        }
    }
}

/// The `return`s of two lists in a row are those of the first, then those of
/// the second.
pub proof fn lemma_stmts_returns_concat(a: Seq<StmtView>, b: Seq<StmtView>)
    ensures
        stmts_returns(a + b) == stmts_returns(a) + stmts_returns(b),
    decreases b.len(),
{
    if b.len() > 0 {
        let ab = a + b;
        assert(ab.drop_last() =~= a + b.drop_last());
        lemma_stmts_returns_concat(a, b.drop_last());
    }
}

/// A `return` inside a nested function does not count: a statement that the
/// walk does not look into can be put anywhere in a body, or taken out of it,
/// and the `return`s of the body stay what they are.
pub proof fn lemma_opaque_statement_adds_nothing(ss: Seq<StmtView>, i: int, s: StmtView)
    requires
        0 <= i <= ss.len(),
        is_opaque(s),
    ensures
        stmts_returns(ss.insert(i, s)) == stmts_returns(ss),
{
    let front = ss.take(i);
    let back = ss.skip(i);
    let one = seq![s];
    assert(ss =~= front + back);
    assert(ss.insert(i, s) =~= (front + one) + back);
    lemma_stmts_returns_concat(front, back);
    lemma_stmts_returns_concat(front + one, back);
    lemma_stmts_returns_concat(front, one);
    assert(stmts_returns(one.drop_last()) =~= Seq::<Option<ExprView>>::empty());
    assert(stmt_returns(one.last()) =~= Seq::<Option<ExprView>>::empty());
}

/// Two statements that differ only in what the walk does not look at have
/// `return`s that qualify alike.
pub proof fn lemma_alike_statements_return_alike(a: StmtView, b: StmtView)
    requires
        stmt_alike(a, b),
    ensures
        qualifications(stmt_returns(a)) == qualifications(stmt_returns(b)),
    decreases a,
{
    match a {
        StmtView::Block(x) => {
            lemma_alike_lists_return_alike(x.stmts, b->Block_0.stmts);
        },
        StmtView::If { test, cons, alt } => {
            lemma_alike_statements_return_alike(*cons, *b->If_cons);
            let a2 = match alt {
                Some(p) => stmt_returns(*p),
                None => Seq::empty(),
            };
            let b2 = match b->If_alt {
                Some(p) => stmt_returns(*p),
                None => Seq::empty(),
            };
            match alt {
                Some(p) => {
                    lemma_alike_statements_return_alike(*p, *b->If_alt->Some_0);
                },
                None => {},
            }
            lemma_qualifications_concat(stmt_returns(*cons), a2);
            lemma_qualifications_concat(stmt_returns(*b->If_cons), b2);
        },
        StmtView::Loop { init, cond, body } => {
            lemma_alike_statements_return_alike(*body, *b->Loop_body);
        },
        StmtView::Try { block, handler, finalizer } => {
            lemma_alike_lists_return_alike(block.stmts, b->Try_block.stmts);
            let a1 = stmts_returns(block.stmts);
            let b1 = stmts_returns(b->Try_block.stmts);
            let a2 = opt_block_returns(handler);
            let b2 = opt_block_returns(b->Try_handler);
            let a3 = opt_block_returns(finalizer);
            let b3 = opt_block_returns(b->Try_finalizer);
            match handler {
                Some(p) => {
                    lemma_alike_lists_return_alike(p.stmts, b->Try_handler->Some_0.stmts);
                },
                None => {},
            }
            match finalizer {
                Some(p) => {
                    lemma_alike_lists_return_alike(p.stmts, b->Try_finalizer->Some_0.stmts);
                },
                None => {},
            }
            lemma_qualifications_concat(a1, a2);
            lemma_qualifications_concat(b1, b2);
            lemma_qualifications_concat(a1 + a2, a3);
            lemma_qualifications_concat(b1 + b2, b3);
        },
        StmtView::Other { exprs, stmts } => {
            lemma_alike_lists_return_alike(stmts, b->Other_stmts);
        },
        _ => {},
    }
}

/// [`lemma_alike_statements_return_alike`] for lists of statements.
pub proof fn lemma_alike_lists_return_alike(a: Seq<StmtView>, b: Seq<StmtView>)
    requires
        stmts_alike(a, b),
    ensures
        qualifications(stmts_returns(a)) == qualifications(stmts_returns(b)),
    decreases a,
{
    if a.len() > 0 {
        lemma_alike_lists_return_alike(a.drop_last(), b.drop_last());
        lemma_alike_statements_return_alike(a.last(), b.last());
        lemma_qualifications_concat(stmts_returns(a.drop_last()), stmt_returns(a.last()));
        lemma_qualifications_concat(stmts_returns(b.drop_last()), stmt_returns(b.last()));
    }
}

/// Which `return`s qualify in two lists in a row.
pub proof fn lemma_qualifications_concat(a: Seq<Option<ExprView>>, b: Seq<Option<ExprView>>)
    ensures
        qualifications(a + b) == qualifications(a) + qualifications(b),
{
}

/// Two function bodies that differ only in what stands inside the functions
/// nested in them get the same answer.
pub proof fn lemma_nested_functions_do_not_count(a: Seq<StmtView>, b: Seq<StmtView>)
    requires
        stmts_alike(a, b),
    ensures
        matches_component_shape(stmts_returns(a)) == matches_component_shape(stmts_returns(b)),
{
    lemma_alike_lists_return_alike(a, b);
    lemma_shape_from_qualifications(stmts_returns(a), stmts_returns(b));
}

/// A function with no `return` of its own never matches.
pub proof fn lemma_no_return_no_match(ss: Seq<StmtView>)
    requires
        stmts_returns(ss).len() == 0,
    ensures
        !matches_component_shape(stmts_returns(ss)),
{
}

} // verus!
