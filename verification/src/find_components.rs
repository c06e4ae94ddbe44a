//! The finder: it looks at every function-valued binding, decides from its
//! name and from what it returns whether it is a component or a hook, and
//! records those that are.
//!
//! A binding whose name starts with `use` is a hook on the strength of its
//! name. A binding whose name begins with an uppercase letter is a component
//! if its function returns what a component returns. The initializer of a
//! confirmed component is rewritten so that its body is a block; nothing else
//! in the tree changes.
//!
//! What stands here is the step on one binding: it decides, and records. It
//! does not look at what is nested in the binding. The walk over
//! declarations and whole trees is built on it.

use crate::ast::{
    ArrowExpr, ArrowExprView, BlockStmt, BlockStmtOrExpr, BlockStmtOrExprView, Expr, ExprView,
    Pat, PatView, Stmt, VarDeclarator, VarDeclaratorView,
};
use crate::component::{Component, ComponentView, State};
use crate::config::Config;
use crate::error::{FinderError, InternalError};
use crate::generic_fn::{returning_block, GenericFn, GenericFnView};
use crate::names::{
    inspect_error, is_component_name, is_hook_name, matches_component_name, matches_hook_name,
};
use vstd::prelude::*;

verus! {

/// What its name says of a binding.
#[derive(Debug, Clone, Copy, PartialEq, Eq, Structural)]
pub enum NameKind {
    /// Neither rule holds.
    Neither,
    /// The hook rule holds.
    Hook,
    /// The component rule holds, and the hook rule does not.
    Component,
}

/// What the finder does with a binding.
#[derive(Debug, Clone, Copy, PartialEq, Eq, Structural)]
pub enum Verdict {
    /// Nothing.
    Untouched,
    /// It records a hook.
    Hook,
    /// It records a component.
    Component,
}

/// The kind of a name, given what the two rules say of it. The hook rule is
/// asked first.
pub open spec fn kind_of(is_hook: bool, is_component: bool) -> NameKind {
    if is_hook {
        NameKind::Hook
    } else if is_component {
        NameKind::Component
    } else {
        NameKind::Neither
    }
}

/// The verdict on a binding of kind `kind`, where `shape` says whether its
/// function returns what a component returns. A hook needs no shape.
pub open spec fn verdict_of(kind: NameKind, shape: bool) -> Verdict {
    match kind {
        NameKind::Hook => Verdict::Hook,
        NameKind::Component => if shape {
            Verdict::Component
        } else {
            Verdict::Untouched
        },
        NameKind::Neither => Verdict::Untouched,
    }
}

/// What the finder decides on the binding of `function` under `name`.
///
/// A name that cannot be inspected is an error. So is a component candidate
/// without a body, since there is nothing to classify it by.
pub open spec fn binding_outcome(name: Seq<char>, function: GenericFnView) -> Result<
    Verdict,
    FinderError,
> {
    match inspect_error(name) {
        Some(e) => Err(FinderError::InvalidName(e)),
        None => {
            let kind = kind_of(is_hook_name(name), is_component_name(name));
            if kind == NameKind::Component {
                match function.component_shape() {
                    Some(shape) => Ok(verdict_of(kind, shape)),
                    None => Err(FinderError::Internal(InternalError::MissingBody)),
                }
            } else {
                Ok(verdict_of(kind, false))
            }
        },
    }
}

/// The record that a verdict other than `Untouched` leaves.
pub open spec fn recorded(
    name: Seq<char>,
    verdict: Verdict,
    function: GenericFnView,
) -> ComponentView {
    ComponentView {
        name,
        is_hook: verdict == Verdict::Hook,
        function: function.normalized(),
        segments: Map::empty(),
    }
}

/// What a binding adds to the list of finds: one record, or nothing.
pub open spec fn binding_found(name: Seq<char>, function: GenericFnView) -> Seq<ComponentView> {
    match binding_outcome(name, function) {
        Ok(Verdict::Hook) => seq![recorded(name, Verdict::Hook, function)],
        Ok(Verdict::Component) => seq![recorded(name, Verdict::Component, function)],
        _ => Seq::empty(),
    }
}

/// The function that a declarator binds, where its initializer is one.
pub open spec fn declarator_function(d: VarDeclaratorView) -> Option<GenericFnView> {
    match d.init {
        Some(ExprView::Arrow(a)) => Some(GenericFnView::ArrowFunction(a)),
        Some(ExprView::Fn { ident, function }) => Some(GenericFnView::Function(function)),
        _ => None,
    }
}

/// What the finder decides on a declarator. One that binds no function, or
/// binds it to a pattern, is left alone whatever its name.
pub open spec fn declarator_outcome(d: VarDeclaratorView) -> Result<Verdict, FinderError> {
    match (d.name, declarator_function(d)) {
        (PatView::Ident(name), Some(function)) => binding_outcome(name, function),
        _ => Ok(Verdict::Untouched),
    }
}

/// What a declarator adds to the list of finds.
pub open spec fn declarator_found(d: VarDeclaratorView) -> Seq<ComponentView> {
    match (d.name, declarator_function(d)) {
        (PatView::Ident(name), Some(function)) => binding_found(name, function),
        _ => Seq::empty(),
    }
}

/// An initializer with the function in it normalized: an arrow `=> e`
/// becomes `=> { return e; }`, every other expression stays as it is.
pub open spec fn normalized_init(init: ExprView) -> ExprView {
    match init {
        ExprView::Arrow(a) => match a.body {
            BlockStmtOrExprView::Expr(e) => ExprView::Arrow(
                ArrowExprView {
                    params: a.params,
                    body: BlockStmtOrExprView::BlockStmt(returning_block(*e)),
                    is_async: a.is_async,
                    is_generator: a.is_generator,
                },
            ),
            BlockStmtOrExprView::BlockStmt(_) => init,
        },
        _ => init,
    }
}

/// Normalizing an initializer normalizes the function that a declarator
/// binds through it.
pub proof fn lemma_normalized_init_binds_normalized(d: VarDeclaratorView, init: ExprView)
    requires
        d.init == Some(init),
    ensures
        declarator_function(
            VarDeclaratorView {
                name: d.name,
                init: Some(normalized_init(init)),
                definite: d.definite,
            },
        ) == match declarator_function(d) {
            Some(f) => Some(f.normalized()),
            None => None,
        },
{
}

/// Orders the two rules on a name: a hook first, then a component.
pub fn name_kind(is_hook: bool, is_component: bool) -> (r: NameKind)
    ensures
        r == kind_of(is_hook, is_component),
{
    if is_hook {
        NameKind::Hook
    } else if is_component {
        NameKind::Component
    } else {
        NameKind::Neither
    }
}

/// Decides on the binding of `function` under `name`. The function is looked
/// at only where the name makes it a component candidate.
pub fn classify_binding(name: &str, function: &GenericFn) -> (r: Result<Verdict, FinderError>)
    ensures
        r == binding_outcome(name@, function@),
{
    let is_component = match matches_component_name(name) {
        Ok(b) => b,
        Err(e) => {
            return Err(FinderError::InvalidName(e));
        },
    };
    let is_hook = matches_hook_name(name);
    match name_kind(is_hook, is_component) {
        NameKind::Hook => Ok(Verdict::Hook),
        NameKind::Neither => Ok(Verdict::Untouched),
        NameKind::Component => match function.return_type_matches_component() {
            Ok(true) => Ok(Verdict::Component),
            Ok(false) => Ok(Verdict::Untouched),
            Err(e) => Err(FinderError::Internal(e)),
        },
    }
}

/// Normalizes the function in an initializer.
pub fn normalize_init(init: Expr) -> (r: Expr)
    ensures
        r@ == normalized_init(init@),
{
    match init {
        Expr::Arrow(
            ArrowExpr { params, body: BlockStmtOrExpr::Expr(e), is_async, is_generator },
        ) => {
            let mut stmts: Vec<Stmt> = Vec::new();
            stmts.push((*e).into_return_stmt());
            let block = BlockStmt { stmts };
            assert(block@.stmts =~= returning_block(e@).stmts);
            Expr::Arrow(
                ArrowExpr {
                    params,
                    body: BlockStmtOrExpr::BlockStmt(block),
                    is_async,
                    is_generator,
                },
            )
        },
        other => other,
    }
}

/// The pass over one file: its options, and what it has found so far.
#[derive(Debug)]
pub struct ComponentFinder {
    config: Config,
    state: State,
}

impl ComponentFinder {
    /// The options.
    pub closed spec fn config_view(&self) -> Config {
        self.config
    }

    /// What was found so far, in the order of finding.
    pub closed spec fn found(&self) -> Seq<ComponentView> {
        self.state@
    }

    /// A finder with `config` that adds to what `state` holds.
    pub fn new(config: Config, state: State) -> (r: Self)
        ensures
            r.config_view() == config,
            r.found() == state@,
    {
        ComponentFinder { config, state }
    }

    /// The options.
    pub fn config(&self) -> (r: &Config)
        ensures
            *r == self.config_view(),
    {
        &self.config
    }

    /// What was found so far.
    pub fn state(&self) -> (r: &State)
        ensures
            r@ == self.found(),
    {
        &self.state
    }

    /// Ends the pass and hands out what was found.
    pub fn into_state(self) -> (r: State)
        ensures
            r@ == self.found(),
    {
        self.state
    }

    /// Decides on the binding of `function` under `name`, and records it if
    /// it is a component or a hook.
    pub fn register_binding(&mut self, name: &String, function: GenericFn) -> (r: Result<
        Verdict,
        FinderError,
    >)
        ensures
            final(self).config_view() == old(self).config_view(),
            r == binding_outcome(name@, function@),
            final(self).found() == old(self).found() + binding_found(name@, function@),
    {
        let r = classify_binding(name.as_str(), &function);
        match r {
            Ok(Verdict::Hook) => {
                let component = Component::new(name.clone(), true, function);
                assert(old(self).found() + seq![component@] =~= old(self).found().push(
                    component@,
                ));
                self.state.push(component);
            },
            Ok(Verdict::Component) => {
                let component = Component::new(name.clone(), false, function);
                assert(old(self).found() + seq![component@] =~= old(self).found().push(
                    component@,
                ));
                self.state.push(component);
            },
            _ => {},
        }
        r
    }

    /// Decides on a declarator, and records it if it binds a component or a
    /// hook. The declarator itself is not touched.
    pub fn register_declarator(&mut self, decl: &VarDeclarator) -> (r: Result<Verdict, FinderError>)
        ensures
            final(self).config_view() == old(self).config_view(),
            r == declarator_outcome(decl@),
            final(self).found() == old(self).found() + declarator_found(decl@),
    {
        let name: &String = match &decl.name {
            Pat::Ident(id) => id,
            Pat::Other => {
                return Ok(Verdict::Untouched);
            },
        };
        let function: GenericFn = match &decl.init {
            Some(Expr::Arrow(fn_node)) => GenericFn::ArrowFunction(fn_node.clone()),
            Some(Expr::Fn { ident, function }) => GenericFn::Function(function.clone()),
            _ => {
                return Ok(Verdict::Untouched);
            },
        };
        self.register_binding(name, function)
    }
}

/// The finder for one file, with `config`, that adds to what `state` holds.
pub fn component_finder(config: Config, state: State) -> (r: ComponentFinder)
    ensures
        r.config_view() == config,
        r.found() == state@,
{
    ComponentFinder::new(config, state)
}

} // verus!
