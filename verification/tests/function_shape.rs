use react_unforget_transform::ast::{
    ArrowExpr, BlockStmt, BlockStmtOrExpr, Expr, Function, Lit, Pat, Stmt,
};
use react_unforget_transform::error::InternalError;
use react_unforget_transform::generic::{find_body, find_params, BodyRef};
use react_unforget_transform::generic_fn::GenericFn;

fn div() -> Expr {
    Expr::JsxElement("div".to_string())
}

fn arrow_returning(e: Expr) -> ArrowExpr {
    ArrowExpr {
        params: vec![Pat::Ident("props".to_string())],
        body: BlockStmtOrExpr::Expr(Box::new(e)),
        is_async: false,
        is_generator: false,
    }
}

fn arrow_with_block(stmts: Vec<Stmt>) -> ArrowExpr {
    ArrowExpr {
        params: vec![Pat::Ident("props".to_string())],
        body: BlockStmtOrExpr::BlockStmt(BlockStmt { stmts }),
        is_async: false,
        is_generator: false,
    }
}

fn function_with(body: Option<BlockStmt>) -> Function {
    Function { params: vec![Pat::Ident("a".to_string()), Pat::Other], body, is_async: true, is_generator: false }
}

#[test]
fn into_return_stmt_wraps_the_expression() {
    assert_eq!(div().into_return_stmt(), Stmt::Return(Some(div())));
    assert_eq!(Expr::Lit(Lit::Null).into_return_stmt(), Stmt::Return(Some(Expr::Lit(Lit::Null))));
}

#[test]
fn get_body_of_function_is_its_block() {
    let block = BlockStmt { stmts: vec![Stmt::Return(Some(div()))] };
    let f = GenericFn::Function(function_with(Some(block.clone())));
    assert_eq!(f.get_body(), Ok(BlockStmtOrExpr::BlockStmt(block)));
}

#[test]
fn get_body_of_arrow_is_block_or_expression() {
    let bare = GenericFn::ArrowFunction(arrow_returning(div()));
    assert_eq!(bare.get_body(), Ok(BlockStmtOrExpr::Expr(Box::new(div()))));
    let braced = GenericFn::ArrowFunction(arrow_with_block(vec![Stmt::Empty]));
    assert_eq!(
        braced.get_body(),
        Ok(BlockStmtOrExpr::BlockStmt(BlockStmt { stmts: vec![Stmt::Empty] }))
    );
}

#[test]
fn get_body_without_body_is_an_error() {
    let f = GenericFn::Function(function_with(None));
    assert_eq!(f.get_body(), Err(InternalError::MissingBody));
}

#[test]
fn get_body_does_not_change_the_function() {
    let bare = GenericFn::ArrowFunction(arrow_returning(div()));
    let _ = bare.get_body();
    assert_eq!(bare, GenericFn::ArrowFunction(arrow_returning(div())));
}

#[test]
fn update_body_replaces_the_body() {
    let new_body = BlockStmt { stmts: vec![Stmt::Return(Some(Expr::Lit(Lit::Null)))] };
    let mut f = GenericFn::Function(function_with(None));
    f.update_body(new_body.clone());
    assert_eq!(f, GenericFn::Function(function_with(Some(new_body.clone()))));
    let mut g = GenericFn::Function(function_with(Some(BlockStmt { stmts: vec![Stmt::Empty] })));
    g.update_body(new_body.clone());
    assert_eq!(g, GenericFn::Function(function_with(Some(new_body.clone()))));
    let mut a = GenericFn::ArrowFunction(arrow_returning(div()));
    a.update_body(new_body.clone());
    assert_eq!(a, GenericFn::ArrowFunction(arrow_with_block(new_body.stmts)));
}

#[test]
fn ensure_block_body_wraps_a_bare_expression() {
    let mut a = GenericFn::ArrowFunction(arrow_returning(div()));
    a.ensure_body_block_stmt();
    assert_eq!(a, GenericFn::ArrowFunction(arrow_with_block(vec![Stmt::Return(Some(div()))])));
}

#[test]
fn ensure_block_body_twice_is_once() {
    let mut once = GenericFn::ArrowFunction(arrow_returning(div()));
    once.ensure_body_block_stmt();
    let mut twice = GenericFn::ArrowFunction(arrow_returning(div()));
    twice.ensure_body_block_stmt();
    twice.ensure_body_block_stmt();
    assert_eq!(once, twice);
    assert_eq!(once.get_body(), twice.get_body());
}

#[test]
fn ensure_block_body_leaves_blocks_alone() {
    let stmts = vec![Stmt::Empty, Stmt::Return(Some(div()))];
    let mut a = GenericFn::ArrowFunction(arrow_with_block(stmts.clone()));
    a.ensure_body_block_stmt();
    assert_eq!(a, GenericFn::ArrowFunction(arrow_with_block(stmts.clone())));
    let mut f = GenericFn::Function(function_with(Some(BlockStmt { stmts: stmts.clone() })));
    f.ensure_body_block_stmt();
    assert_eq!(f, GenericFn::Function(function_with(Some(BlockStmt { stmts }))));
}

#[test]
fn ensure_block_body_leaves_a_missing_body_missing() {
    let mut f = GenericFn::Function(function_with(None));
    f.ensure_body_block_stmt();
    assert_eq!(f, GenericFn::Function(function_with(None)));
}

#[test]
fn ensure_block_body_keeps_parameters_and_flags() {
    let mut a = GenericFn::ArrowFunction(ArrowExpr {
        params: vec![Pat::Other, Pat::Ident("x".to_string())],
        body: BlockStmtOrExpr::Expr(Box::new(div())),
        is_async: true,
        is_generator: false,
    });
    a.ensure_body_block_stmt();
    assert_eq!(
        a,
        GenericFn::ArrowFunction(ArrowExpr {
            params: vec![Pat::Other, Pat::Ident("x".to_string())],
            body: BlockStmtOrExpr::BlockStmt(BlockStmt { stmts: vec![Stmt::Return(Some(div()))] }),
            is_async: true,
            is_generator: false,
        })
    );
}

#[test]
fn clone_gives_an_equal_function() {
    let a = GenericFn::ArrowFunction(arrow_with_block(vec![
        Stmt::If { test: div(), cons: Box::new(Stmt::Empty), alt: Some(Box::new(Stmt::Return(None))) },
        Stmt::Expr(Expr::Other(vec![Expr::Ident("f".to_string()), Expr::Lit(Lit::Str("s".to_string()))])),
        Stmt::Other { exprs: vec![Expr::JsxFragment], stmts: vec![Stmt::Return(Some(div()))] },
    ]));
    assert_eq!(a.clone(), a);
}

#[test]
fn find_params_of_arrow_and_function() {
    let a = Expr::Arrow(arrow_returning(div()));
    assert_eq!(find_params(&a), Some(vec![&Pat::Ident("props".to_string())]));
    let f = Expr::Fn { ident: Some("named".to_string()), function: function_with(None) };
    assert_eq!(find_params(&f), Some(vec![&Pat::Ident("a".to_string()), &Pat::Other]));
}

#[test]
fn find_params_of_other_expressions_is_none() {
    assert_eq!(find_params(&div()), None);
    assert_eq!(find_params(&Expr::Other(vec![Expr::Arrow(arrow_returning(div()))])), None);
}

#[test]
fn find_body_of_arrow_and_function() {
    let bare = Expr::Arrow(arrow_returning(div()));
    assert_eq!(find_body(&bare), Ok(Some(BodyRef::Expr(&div()))));
    let braced = Expr::Arrow(arrow_with_block(vec![Stmt::Empty]));
    assert_eq!(find_body(&braced), Ok(Some(BodyRef::Block(&BlockStmt { stmts: vec![Stmt::Empty] }))));
    let f = Expr::Fn { ident: None, function: function_with(Some(BlockStmt { stmts: vec![] })) };
    assert_eq!(find_body(&f), Ok(Some(BodyRef::Block(&BlockStmt { stmts: vec![] }))));
}

#[test]
fn find_body_of_other_expressions_is_none() {
    assert_eq!(find_body(&Expr::Ident("f".to_string())), Ok(None));
}

#[test]
fn find_body_of_function_without_body_is_an_error() {
    let f = Expr::Fn { ident: None, function: function_with(None) };
    assert_eq!(find_body(&f), Err(InternalError::MissingBody));
}
