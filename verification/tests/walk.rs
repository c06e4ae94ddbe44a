use react_unforget_transform::ast::{
    ArrowExpr, BlockStmt, BlockStmtOrExpr, Expr, FnDecl, Function, Lit, Pat, Program, Stmt,
    VarDecl, VarDeclKind, VarDeclarator,
};
use react_unforget_transform::error::{FinderError, InternalError};
use react_unforget_transform::find_components::normalize_init;
use react_unforget_transform::generic_fn::GenericFn;
use react_unforget_transform::names::NameError;
use react_unforget_transform::{react_unforget, ComponentFinder, Config, FileName};

fn jsx(tag: &str) -> Expr {
    Expr::JsxElement(tag.to_string())
}

fn text(s: &str) -> Expr {
    Expr::Lit(Lit::Str(s.to_string()))
}

fn ident(s: &str) -> Expr {
    Expr::Ident(s.to_string())
}

fn ret(e: Expr) -> Stmt {
    Stmt::Return(Some(e))
}

fn block(stmts: Vec<Stmt>) -> BlockStmt {
    BlockStmt { stmts }
}

fn function(stmts: Vec<Stmt>) -> Function {
    Function { params: vec![], body: Some(block(stmts)), is_async: false, is_generator: false }
}

fn declared(name: &str, stmts: Vec<Stmt>) -> Stmt {
    Stmt::FnDecl(FnDecl { ident: name.to_string(), declare: false, function: function(stmts) })
}

fn arrow(e: Expr) -> Expr {
    Expr::Arrow(ArrowExpr {
        params: vec![],
        body: BlockStmtOrExpr::Expr(Box::new(e)),
        is_async: false,
        is_generator: false,
    })
}

fn block_arrow(stmts: Vec<Stmt>) -> Expr {
    Expr::Arrow(ArrowExpr {
        params: vec![],
        body: BlockStmtOrExpr::BlockStmt(block(stmts)),
        is_async: false,
        is_generator: false,
    })
}

fn bind(name: &str, init: Expr) -> VarDeclarator {
    VarDeclarator { name: Pat::Ident(name.to_string()), init: Some(init), definite: false }
}

fn konst(decls: Vec<VarDeclarator>) -> Stmt {
    Stmt::VarDecl(VarDecl { kind: VarDeclKind::Const, declare: false, decls })
}

fn finder() -> ComponentFinder {
    react_unforget(FileName::Anon, Config::default())
}

fn names(f: &ComponentFinder) -> Vec<(String, bool)> {
    f.state().components().iter().map(|c| (c.name.clone(), c.is_hook)).collect()
}

fn found(list: &[(&str, bool)]) -> Vec<(String, bool)> {
    list.iter().map(|(n, h)| (n.to_string(), *h)).collect()
}

#[test]
fn walk_registers_a_function_component_and_keeps_its_body() {
    let program = Program { body: vec![declared("Foo", vec![ret(jsx("div"))])] };
    let mut f = finder();
    assert_eq!(f.walk_program(&program), Ok(program.clone()));
    assert_eq!(names(&f), found(&[("Foo", false)]));
    assert_eq!(f.state().components()[0].function, GenericFn::Function(function(vec![ret(jsx("div"))])));
}

#[test]
fn walk_normalizes_an_arrow_component() {
    let program = Program { body: vec![konst(vec![bind("Foo", arrow(jsx("div")))])] };
    let expected = Program { body: vec![konst(vec![bind("Foo", block_arrow(vec![ret(jsx("div"))]))])] };
    let mut f = finder();
    assert_eq!(f.walk_program(&program), Ok(expected));
    assert_eq!(names(&f), found(&[("Foo", false)]));
    assert_eq!(
        f.state().components()[0].get_body_block_stmt(),
        Ok(block(vec![ret(jsx("div"))]))
    );
}

#[test]
fn walk_registers_a_hook_on_its_name() {
    let program = Program { body: vec![declared("useThing", vec![ret(Expr::Lit(Lit::Num(1)))])] };
    let mut f = finder();
    assert_eq!(f.walk_program(&program), Ok(program.clone()));
    assert_eq!(names(&f), found(&[("useThing", true)]));
}

#[test]
fn walk_leaves_a_function_returning_text_alone() {
    let program = Program { body: vec![declared("Bar", vec![ret(text("x"))])] };
    let mut f = finder();
    assert_eq!(f.walk_program(&program), Ok(program.clone()));
    assert!(f.state().components().is_empty());
}

#[test]
fn walk_of_an_empty_file_finds_nothing() {
    let mut f = finder();
    assert_eq!(f.walk_program(&Program { body: vec![] }), Ok(Program { body: vec![] }));
    assert!(f.state().components().is_empty());
}

#[test]
fn walk_visits_nested_declarations_after_the_enclosing_one() {
    let program = Program {
        body: vec![
            declared(
                "Outer",
                vec![
                    declared("Inner", vec![ret(jsx("span"))]),
                    konst(vec![bind("useLocal", block_arrow(vec![]))]),
                    ret(jsx("div")),
                ],
            ),
            declared("Next", vec![ret(Expr::Lit(Lit::Null))]),
        ],
    };
    let mut f = finder();
    assert_eq!(f.walk_program(&program), Ok(program.clone()));
    assert_eq!(
        names(&f),
        found(&[("Outer", false), ("Inner", false), ("useLocal", true), ("Next", false)])
    );
}

#[test]
fn walk_visits_declarations_in_functions_that_are_left_alone() {
    let program = Program {
        body: vec![declared(
            "helper",
            vec![konst(vec![bind("Inner", arrow(jsx("b")))]), ret(text("x"))],
        )],
    };
    let expected = Program {
        body: vec![declared(
            "helper",
            vec![konst(vec![bind("Inner", block_arrow(vec![ret(jsx("b"))]))]), ret(text("x"))],
        )],
    };
    let mut f = finder();
    assert_eq!(f.walk_program(&program), Ok(expected));
    assert_eq!(names(&f), found(&[("Inner", false)]));
}

#[test]
fn walk_looks_into_blocks_conditionals_loops_and_try() {
    let program = Program {
        body: vec![
            Stmt::Block(block(vec![declared("A", vec![ret(jsx("a"))])])),
            Stmt::If {
                test: Expr::Other(vec![block_arrow(vec![declared("useB", vec![])])]),
                cons: Box::new(declared("C", vec![ret(jsx("c"))])),
                alt: Some(Box::new(Stmt::Block(block(vec![konst(vec![bind(
                    "D",
                    arrow(Expr::JsxFragment),
                )])])))),
            },
            Stmt::Loop {
                init: Some(VarDecl {
                    kind: VarDeclKind::Let,
                    declare: false,
                    decls: vec![bind("E", arrow(Expr::Lit(Lit::Null)))],
                }),
                cond: Some(arrow(Expr::Other(vec![Expr::Fn {
                    ident: Some("Ignored".to_string()),
                    function: function(vec![declared("useF", vec![])]),
                }]))),
                body: Box::new(declared("G", vec![ret(jsx("g"))])),
            },
            Stmt::Try {
                block: block(vec![declared("H", vec![ret(jsx("h"))])]),
                handler: Some(block(vec![declared("useI", vec![])])),
                finalizer: Some(block(vec![declared("J", vec![ret(jsx("j"))])])),
            },
            Stmt::Return(Some(block_arrow(vec![declared("K", vec![ret(jsx("k"))])]))),
            Stmt::Expr(Expr::Fn { ident: None, function: function(vec![declared("useL", vec![])]) }),
        ],
    };
    let mut f = finder();
    let out = f.walk_program(&program).unwrap();
    assert_eq!(
        names(&f),
        found(&[
            ("A", false),
            ("useB", true),
            ("C", false),
            ("D", false),
            ("E", false),
            ("useF", true),
            ("G", false),
            ("H", false),
            ("useI", true),
            ("J", false),
            ("K", false),
            ("useL", true),
        ])
    );
    assert_eq!(out.body.len(), program.body.len());
    match &out.body[1] {
        Stmt::If { alt: Some(alt), .. } => {
            assert_eq!(
                **alt,
                Stmt::Block(block(vec![konst(vec![bind(
                    "D",
                    block_arrow(vec![ret(Expr::JsxFragment)])
                )])]))
            );
        }
        other => panic!("{:?}", other),
    }
    match &out.body[2] {
        Stmt::Loop { init: Some(init), .. } => {
            assert_eq!(init.decls, vec![bind("E", block_arrow(vec![ret(Expr::Lit(Lit::Null))]))]);
        }
        other => panic!("{:?}", other),
    }
}

#[test]
fn walk_looks_into_other_nesting_statements() {
    let program = Program {
        body: vec![Stmt::Other {
            exprs: vec![ident("kind"), block_arrow(vec![declared("useA", vec![])])],
            stmts: vec![
                konst(vec![bind("B", arrow(jsx("b")))]),
                Stmt::Other { exprs: vec![], stmts: vec![declared("C", vec![ret(jsx("c"))])] },
            ],
        }],
    };
    let expected = Program {
        body: vec![Stmt::Other {
            exprs: vec![ident("kind"), block_arrow(vec![declared("useA", vec![])])],
            stmts: vec![
                konst(vec![bind("B", block_arrow(vec![ret(jsx("b"))]))]),
                Stmt::Other { exprs: vec![], stmts: vec![declared("C", vec![ret(jsx("c"))])] },
            ],
        }],
    };
    let mut f = finder();
    assert_eq!(f.walk_program(&program), Ok(expected));
    assert_eq!(names(&f), found(&[("useA", true), ("B", false), ("C", false)]));
}

#[test]
fn walk_decides_a_declarator_before_walking_its_initializer() {
    let inner = konst(vec![bind("Inner", arrow(jsx("i")))]);
    let program = Program {
        body: vec![konst(vec![
            bind("Outer", block_arrow(vec![inner, ret(jsx("o"))])),
            bind("Second", arrow(jsx("s"))),
        ])],
    };
    let expected = Program {
        body: vec![konst(vec![
            bind(
                "Outer",
                block_arrow(vec![
                    konst(vec![bind("Inner", block_arrow(vec![ret(jsx("i"))]))]),
                    ret(jsx("o")),
                ]),
            ),
            bind("Second", block_arrow(vec![ret(jsx("s"))])),
        ])],
    };
    let mut f = finder();
    assert_eq!(f.walk_program(&program), Ok(expected));
    assert_eq!(names(&f), found(&[("Outer", false), ("Inner", false), ("Second", false)]));
}

#[test]
fn record_holds_the_function_as_it_was_found() {
    let inner = konst(vec![bind("Inner", arrow(jsx("i")))]);
    let body = vec![inner, ret(jsx("o"))];
    let program = Program { body: vec![declared("Outer", body.clone())] };
    let mut f = finder();
    f.walk_program(&program).unwrap();
    assert_eq!(f.state().components()[0].function, GenericFn::Function(function(body)));
}

#[test]
fn walk_normalizes_a_component_around_what_is_nested_in_it() {
    let nested = Expr::Other(vec![block_arrow(vec![konst(vec![bind("Inner", arrow(jsx("i")))])])]);
    let program = Program { body: vec![konst(vec![bind("Outer", arrow(jsx("o")))])] };
    let mut f = finder();
    let out = f.walk_program(&program).unwrap();
    assert_eq!(out.body, vec![konst(vec![bind("Outer", block_arrow(vec![ret(jsx("o"))]))])]);
    let untouched = Program { body: vec![konst(vec![bind("outer", arrow(nested))])] };
    let mut g = finder();
    let out = g.walk_program(&untouched).unwrap();
    let rewritten_nested =
        Expr::Other(vec![block_arrow(vec![konst(vec![bind("Inner", block_arrow(vec![ret(jsx("i"))]))])])]);
    assert_eq!(out.body, vec![konst(vec![bind("outer", arrow(rewritten_nested))])]);
    assert_eq!(names(&g), found(&[("Inner", false)]));
}

#[test]
fn walk_stops_at_the_first_failure() {
    let program = Program {
        body: vec![
            declared("First", vec![ret(jsx("a"))]),
            declared("Broken", vec![declared("_", vec![]), ret(jsx("b"))]),
            declared("Never", vec![ret(jsx("c"))]),
        ],
    };
    let mut f = finder();
    assert_eq!(
        f.walk_program(&program),
        Err(FinderError::InvalidName(NameError::LoneUnderscore))
    );
    assert_eq!(names(&f), found(&[("First", false), ("Broken", false)]));
}

#[test]
fn walk_reports_a_component_without_a_body() {
    let program = Program {
        body: vec![
            declared("useFirst", vec![]),
            Stmt::FnDecl(FnDecl {
                ident: "Overloaded".to_string(),
                declare: true,
                function: Function { params: vec![], body: None, is_async: false, is_generator: false },
            }),
            declared("Never", vec![ret(jsx("c"))]),
        ],
    };
    let mut f = finder();
    assert_eq!(f.walk_program(&program), Err(FinderError::Internal(InternalError::MissingBody)));
    assert_eq!(names(&f), found(&[("useFirst", true)]));
}

#[test]
fn walk_reports_the_failure_that_comes_first_in_the_source() {
    let program = Program {
        body: vec![
            konst(vec![bind("_", arrow(jsx("a")))]),
            Stmt::FnDecl(FnDecl {
                ident: "Overloaded".to_string(),
                declare: true,
                function: Function { params: vec![], body: None, is_async: false, is_generator: false },
            }),
        ],
    };
    let mut f = finder();
    assert_eq!(
        f.walk_program(&program),
        Err(FinderError::InvalidName(NameError::LoneUnderscore))
    );
    assert!(f.state().components().is_empty());
}

#[test]
fn walk_does_not_take_function_expressions_for_bindings() {
    let program = Program {
        body: vec![Stmt::Expr(Expr::Other(vec![
            ident("memo"),
            Expr::Fn { ident: Some("Named".to_string()), function: function(vec![ret(jsx("n"))]) },
        ]))],
    };
    let mut f = finder();
    assert_eq!(f.walk_program(&program), Ok(program.clone()));
    assert!(f.state().components().is_empty());
}

#[test]
fn walk_of_single_nodes() {
    let mut f = finder();
    assert_eq!(f.walk_stmt(&Stmt::Empty), Ok(Stmt::Empty));
    assert_eq!(f.walk_expr(&jsx("div")), Ok(jsx("div")));
    assert_eq!(f.walk_opt_expr(&None), Ok(None));
    assert_eq!(f.walk_opt_block(&None), Ok(None));
    assert_eq!(f.walk_exprs(&vec![ident("a"), text("b")]), Ok(vec![ident("a"), text("b")]));
    assert_eq!(
        f.walk_stmts(&vec![konst(vec![bind("Foo", arrow(jsx("x")))])]),
        Ok(vec![konst(vec![bind("Foo", block_arrow(vec![ret(jsx("x"))]))])])
    );
    assert_eq!(
        f.walk_declarators(&vec![bind("useIt", arrow(jsx("x")))]),
        Ok(vec![bind("useIt", arrow(jsx("x")))])
    );
    assert_eq!(names(&f), found(&[("Foo", false), ("useIt", true)]));
}

#[test]
fn normalize_init_wraps_bare_arrows_only() {
    assert_eq!(normalize_init(arrow(jsx("a"))), block_arrow(vec![ret(jsx("a"))]));
    assert_eq!(normalize_init(block_arrow(vec![])), block_arrow(vec![]));
    assert_eq!(normalize_init(ident("f")), ident("f"));
    let named = Expr::Fn { ident: Some("f".to_string()), function: function(vec![]) };
    assert_eq!(
        normalize_init(named),
        Expr::Fn { ident: Some("f".to_string()), function: function(vec![]) }
    );
}

#[test]
fn walking_twice_changes_nothing_more() {
    let program = Program {
        body: vec![
            konst(vec![bind("Foo", arrow(jsx("div"))), bind("useBar", arrow(text("x")))]),
            declared("Baz", vec![konst(vec![bind("Qux", arrow(Expr::JsxFragment))]), ret(jsx("p"))]),
        ],
    };
    let mut first = finder();
    let once = first.walk_program(&program).unwrap();
    let mut second = finder();
    let twice = second.walk_program(&once).unwrap();
    assert_eq!(once, twice);
    assert_eq!(names(&first), names(&second));
}
