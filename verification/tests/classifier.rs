use react_unforget_transform::ast::{
    ArrowExpr, BlockStmt, BlockStmtOrExpr, Expr, FnDecl, Function, Lit, Pat, Stmt, VarDecl,
    VarDeclKind, VarDeclarator,
};
use react_unforget_transform::error::InternalError;
use react_unforget_transform::generic_fn::{block_matches_component, GenericFn};
use react_unforget_transform::returns_like_component::{
    is_component_return_type, ReturnTypeVisitorState, VisitReturnStatements,
};

fn jsx(tag: &str) -> Expr {
    Expr::JsxElement(tag.to_string())
}

fn text(s: &str) -> Expr {
    Expr::Lit(Lit::Str(s.to_string()))
}

fn ret(e: Expr) -> Stmt {
    Stmt::Return(Some(e))
}

fn block(stmts: Vec<Stmt>) -> BlockStmt {
    BlockStmt { stmts }
}

fn function(stmts: Vec<Stmt>) -> Function {
    Function { params: vec![], body: Some(block(stmts)), is_async: false, is_generator: false }
}

fn arrow(body: BlockStmtOrExpr) -> ArrowExpr {
    ArrowExpr { params: vec![], body, is_async: false, is_generator: false }
}

fn classify(stmts: Vec<Stmt>) -> bool {
    GenericFn::Function(function(stmts)).return_type_matches_component().unwrap()
}

#[test]
fn component_return_types() {
    assert!(is_component_return_type(&jsx("div")));
    assert!(is_component_return_type(&Expr::JsxFragment));
    assert!(is_component_return_type(&Expr::Lit(Lit::Null)));
    assert!(!is_component_return_type(&text("text")));
    assert!(!is_component_return_type(&Expr::Lit(Lit::Bool(false))));
    assert!(!is_component_return_type(&Expr::Lit(Lit::Num(0))));
    assert!(!is_component_return_type(&Expr::Ident("undefined".to_string())));
    assert!(!is_component_return_type(&Expr::Other(vec![jsx("div")])));
    assert!(!is_component_return_type(&Expr::Arrow(arrow(BlockStmtOrExpr::Expr(Box::new(
        jsx("div")
    ))))));
    assert!(!is_component_return_type(&Expr::Fn {
        ident: None,
        function: function(vec![ret(jsx("div"))])
    }));
}

#[test]
fn markup_null_markup_matches() {
    assert!(classify(vec![ret(jsx("div")), ret(Expr::Lit(Lit::Null)), ret(jsx("span"))]));
    assert!(classify(vec![ret(Expr::JsxFragment), ret(Expr::Lit(Lit::Null)), ret(jsx("div"))]));
}

#[test]
fn markup_and_text_does_not_match() {
    assert!(!classify(vec![ret(jsx("div")), ret(text("text"))]));
    assert!(!classify(vec![ret(text("text")), ret(jsx("div"))]));
}

#[test]
fn no_return_does_not_match() {
    assert!(!classify(vec![]));
    assert!(!classify(vec![Stmt::Empty, Stmt::Expr(jsx("div"))]));
}

#[test]
fn bare_return_does_not_match() {
    assert!(!classify(vec![Stmt::Return(None)]));
    assert!(!classify(vec![ret(jsx("div")), Stmt::Return(None)]));
    assert!(!classify(vec![Stmt::Return(None), ret(jsx("div"))]));
}

#[test]
fn returns_in_nested_statements_count() {
    let in_if = Stmt::If {
        test: Expr::Ident("ready".to_string()),
        cons: Box::new(Stmt::Block(block(vec![ret(jsx("div"))]))),
        alt: Some(Box::new(ret(Expr::Lit(Lit::Null)))),
    };
    assert!(classify(vec![in_if]));
    let bad_else = Stmt::If {
        test: Expr::Ident("ready".to_string()),
        cons: Box::new(ret(jsx("div"))),
        alt: Some(Box::new(ret(text("no")))),
    };
    assert!(!classify(vec![bad_else]));
    let in_loop =
        Stmt::Loop { init: None, cond: None, body: Box::new(Stmt::Block(block(vec![ret(jsx("li"))]))) };
    assert!(classify(vec![in_loop]));
    let bad_loop = Stmt::Loop { init: None, cond: None, body: Box::new(ret(Expr::Lit(Lit::Num(1)))) };
    assert!(!classify(vec![ret(jsx("div")), bad_loop]));
}

#[test]
fn returns_in_try_catch_finally_count() {
    let good = Stmt::Try {
        block: block(vec![ret(jsx("div"))]),
        handler: Some(block(vec![ret(Expr::Lit(Lit::Null))])),
        finalizer: Some(block(vec![Stmt::Empty])),
    };
    assert!(classify(vec![good]));
    let bad_handler = Stmt::Try {
        block: block(vec![ret(jsx("div"))]),
        handler: Some(block(vec![ret(text("failed"))])),
        finalizer: None,
    };
    assert!(!classify(vec![bad_handler]));
    let bad_finalizer = Stmt::Try {
        block: block(vec![ret(jsx("div"))]),
        handler: None,
        finalizer: Some(block(vec![Stmt::Return(None)])),
    };
    assert!(!classify(vec![bad_finalizer]));
    let only_finalizer = Stmt::Try {
        block: block(vec![]),
        handler: None,
        finalizer: Some(block(vec![ret(Expr::JsxFragment)])),
    };
    assert!(classify(vec![only_finalizer]));
}

#[test]
fn returns_in_other_nesting_statements_count() {
    let labeled = Stmt::Other { exprs: vec![], stmts: vec![ret(jsx("div"))] };
    assert!(classify(vec![labeled]));
    let switch = Stmt::Other {
        exprs: vec![Expr::Ident("kind".to_string()), Expr::Lit(Lit::Num(1))],
        stmts: vec![ret(jsx("a")), Stmt::Empty, ret(text("b"))],
    };
    assert!(!classify(vec![switch]));
    let in_expression = Stmt::Other {
        exprs: vec![Expr::Fn { ident: None, function: function(vec![ret(text("x"))]) }],
        stmts: vec![ret(Expr::Lit(Lit::Null))],
    };
    assert!(classify(vec![in_expression]));
}

#[test]
fn nested_function_expression_does_not_count() {
    let helper = Stmt::VarDecl(VarDecl {
        kind: VarDeclKind::Const,
        declare: false,
        decls: vec![VarDeclarator {
            name: Pat::Ident("helper".to_string()),
            init: Some(Expr::Fn { ident: None, function: function(vec![ret(text("x"))]) }),
            definite: false,
        }],
    });
    assert!(classify(vec![helper, ret(jsx("div"))]));
}

#[test]
fn nested_function_alone_gives_no_return() {
    let helper = Stmt::Expr(Expr::Fn { ident: None, function: function(vec![ret(jsx("div"))]) });
    assert!(!classify(vec![helper]));
    let arrow_helper = Stmt::Expr(Expr::Arrow(arrow(BlockStmtOrExpr::BlockStmt(block(vec![ret(
        jsx("div"),
    )])))));
    assert!(!classify(vec![arrow_helper]));
    let declared = Stmt::FnDecl(FnDecl {
        ident: "Inner".to_string(),
        declare: false,
        function: function(vec![ret(jsx("div"))]),
    });
    assert!(!classify(vec![declared]));
}

#[test]
fn nested_declaration_and_arrow_do_not_count() {
    let declared = Stmt::FnDecl(FnDecl {
        ident: "helper".to_string(),
        declare: false,
        function: function(vec![Stmt::Return(None)]),
    });
    let callback = Stmt::Expr(Expr::Other(vec![
        Expr::Ident("items".to_string()),
        Expr::Arrow(arrow(BlockStmtOrExpr::BlockStmt(block(vec![ret(Expr::Lit(Lit::Num(1)))])))),
    ]));
    let in_if = Stmt::If {
        test: Expr::Ident("ready".to_string()),
        cons: Box::new(Stmt::Block(block(vec![declared, callback, ret(jsx("div"))]))),
        alt: None,
    };
    assert!(classify(vec![in_if]));
}

#[test]
fn returned_function_is_not_markup() {
    let returned = Expr::Arrow(arrow(BlockStmtOrExpr::Expr(Box::new(jsx("div")))));
    assert!(!classify(vec![ret(returned)]));
}

#[test]
fn arrow_with_bare_expression_is_judged_by_it() {
    let good = GenericFn::ArrowFunction(arrow(BlockStmtOrExpr::Expr(Box::new(jsx("div")))));
    assert_eq!(good.return_type_matches_component(), Ok(true));
    let null = GenericFn::ArrowFunction(arrow(BlockStmtOrExpr::Expr(Box::new(Expr::Lit(Lit::Null)))));
    assert_eq!(null.return_type_matches_component(), Ok(true));
    let bad = GenericFn::ArrowFunction(arrow(BlockStmtOrExpr::Expr(Box::new(text("x")))));
    assert_eq!(bad.return_type_matches_component(), Ok(false));
}

#[test]
fn arrow_with_block_is_judged_by_its_returns() {
    let good = GenericFn::ArrowFunction(arrow(BlockStmtOrExpr::BlockStmt(block(vec![ret(jsx(
        "div",
    ))]))));
    assert_eq!(good.return_type_matches_component(), Ok(true));
    let empty = GenericFn::ArrowFunction(arrow(BlockStmtOrExpr::BlockStmt(block(vec![]))));
    assert_eq!(empty.return_type_matches_component(), Ok(false));
}

#[test]
fn function_without_body_cannot_be_classified() {
    let f = GenericFn::Function(Function {
        params: vec![],
        body: None,
        is_async: false,
        is_generator: false,
    });
    assert_eq!(f.return_type_matches_component(), Err(InternalError::MissingBody));
}

#[test]
fn classification_leaves_the_function_as_it_is() {
    let f = GenericFn::ArrowFunction(arrow(BlockStmtOrExpr::Expr(Box::new(jsx("div")))));
    let _ = f.return_type_matches_component();
    assert_eq!(f, GenericFn::ArrowFunction(arrow(BlockStmtOrExpr::Expr(Box::new(jsx("div"))))));
}

#[test]
fn block_matches_component_agrees_with_the_walk() {
    let b = block(vec![ret(jsx("div")), ret(Expr::Lit(Lit::Null))]);
    assert!(block_matches_component(&b));
    let mut visitor = VisitReturnStatements::default();
    visitor.visit_block_stmt(&b);
    assert_eq!(
        visitor.state,
        ReturnTypeVisitorState { return_type_matches_component: true, return_count: 2 }
    );
    assert!(visitor.state.does_return_type_match_component());
}

#[test]
fn visitor_state_starts_matching_with_no_returns() {
    let state = ReturnTypeVisitorState::default();
    assert_eq!(state, ReturnTypeVisitorState { return_type_matches_component: true, return_count: 0 });
    assert!(!state.does_return_type_match_component());
}

#[test]
fn visitor_state_verdict_needs_both() {
    let counted = ReturnTypeVisitorState { return_type_matches_component: true, return_count: 1 };
    assert!(counted.does_return_type_match_component());
    let failed = ReturnTypeVisitorState { return_type_matches_component: false, return_count: 3 };
    assert!(!failed.does_return_type_match_component());
    let none = ReturnTypeVisitorState { return_type_matches_component: false, return_count: 0 };
    assert!(!none.does_return_type_match_component());
}

#[test]
fn visitor_counts_each_return_once() {
    let mut visitor = VisitReturnStatements::default();
    visitor.visit_return_stmt(&Some(jsx("div")));
    assert_eq!(visitor.state.return_count, 1);
    assert!(visitor.state.return_type_matches_component);
    visitor.visit_return_stmt(&None);
    assert_eq!(visitor.state.return_count, 2);
    assert!(!visitor.state.return_type_matches_component);
    visitor.visit_return_stmt(&Some(jsx("div")));
    assert_eq!(visitor.state.return_count, 3);
    assert!(!visitor.state.return_type_matches_component);
}

#[test]
fn visitor_count_stops_at_the_limit() {
    let mut visitor = VisitReturnStatements {
        state: ReturnTypeVisitorState {
            return_type_matches_component: true,
            return_count: u32::MAX - 1,
        },
    };
    visitor.visit_return_stmt(&Some(jsx("div")));
    assert_eq!(visitor.state.return_count, u32::MAX);
    visitor.visit_return_stmt(&Some(jsx("div")));
    assert_eq!(visitor.state.return_count, u32::MAX);
    assert!(visitor.state.does_return_type_match_component());
}

#[test]
fn visitor_skips_function_declarations() {
    let mut visitor = VisitReturnStatements::default();
    let declared =
        FnDecl { ident: "Inner".to_string(), declare: false, function: function(vec![ret(text("x"))]) };
    visitor.visit_fn_decl(&declared);
    assert_eq!(visitor.state, ReturnTypeVisitorState::default());
    visitor.visit_stmt(&Stmt::FnDecl(declared));
    assert_eq!(visitor.state, ReturnTypeVisitorState::default());
}

#[test]
fn visitor_walks_lists_in_order() {
    let mut visitor = VisitReturnStatements::default();
    visitor.visit_stmts(&vec![ret(jsx("a")), Stmt::Empty, ret(text("b")), ret(jsx("c"))]);
    assert_eq!(
        visitor.state,
        ReturnTypeVisitorState { return_type_matches_component: false, return_count: 3 }
    );
    let mut other = VisitReturnStatements::default();
    other.visit_opt_block_stmt(&None);
    assert_eq!(other.state, ReturnTypeVisitorState::default());
    other.visit_opt_block_stmt(&Some(block(vec![ret(jsx("a"))])));
    assert_eq!(other.state.return_count, 1);
}
