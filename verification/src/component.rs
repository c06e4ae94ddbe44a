//! What the pass records of each function that it confirms.

use crate::ast::{BlockStmt, BlockStmtOrExpr, BlockStmtOrExprView};
use crate::error::InternalError;
use crate::generic_fn::{GenericFn, GenericFnView};
use std::collections::HashMap;
use vstd::prelude::*;

verus! {

/// What a later analysis will attach to one statement of a component. It
/// holds nothing yet.
#[derive(Debug, Clone, Copy, PartialEq, Eq, Structural)]
pub struct ComponentSegment {}

/// A confirmed component or hook.
#[derive(Debug, PartialEq, Eq)]
pub struct Component {
    /// The name of the binding. Two records of one file may share a name.
    pub name: String,
    /// Whether the binding is a hook rather than a component.
    pub is_hook: bool,
    /// The function, as it was when the binding was found, normalized.
    pub function: GenericFn,
    /// The segments, each under the number that identifies its statement.
    pub segments: HashMap<u64, ComponentSegment>,
}

/// The view of [`Component`].
pub struct ComponentView {
    pub name: Seq<char>,
    pub is_hook: bool,
    pub function: GenericFnView,
    pub segments: Map<u64, ComponentSegment>,
}

impl View for Component {
    type V = ComponentView;

    open spec fn view(&self) -> ComponentView {
        ComponentView {
            name: self.name@,
            is_hook: self.is_hook,
            function: self.function@,
            segments: self.segments@,
        }
    }
}

/// The views of a list of components, one for one.
pub open spec fn components_view(v: Seq<Component>) -> Seq<ComponentView> {
    Seq::new(v.len(), |i: int| v[i]@)
}

impl Component {
    /// A component holds its function with a block for a body, or, for a
    /// function that never had one, with none.
    pub open spec fn wf(&self) -> bool {
        !self.function@.has_expr_body()
    }

    /// The record of a function under `name`, with the body of the function
    /// normalized and no segments.
    pub fn new(name: String, is_hook: bool, function: GenericFn) -> (r: Self)
        ensures
            r@ == (ComponentView {
                name: name@,
                is_hook,
                function: function@.normalized(),
                segments: Map::empty(),
            }),
            r.wf(),
    {
        let mut function = function;
        function.ensure_body_block_stmt();
        Component { name, is_hook, function, segments: HashMap::new() }
    }

    /// Attaches `segment` to the statement that `stmt` identifies, in place
    /// of what was attached to it before.
    pub fn add_segment(&mut self, stmt: u64, segment: ComponentSegment)
        ensures
            final(self)@ == (ComponentView {
                name: old(self)@.name,
                is_hook: old(self)@.is_hook,
                function: old(self)@.function,
                segments: old(self)@.segments.insert(stmt, segment),
            }),
    {
        broadcast use vstd::std_specs::hash::group_hash_axioms;

        self.segments.insert(stmt, segment);
    }

    /// The segments attached so far.
    pub fn get_segments(&self) -> (r: &HashMap<u64, ComponentSegment>)
        ensures
            r@ == self@.segments,
    {
        &self.segments
    }

    /// The name of the binding.
    pub fn get_name(&self) -> (r: &str)
        ensures
            r@ == self@.name,
    {
        self.name.as_str()
    }

    /// Readies the component for analysis. There is nothing to ready yet.
    pub fn prepare(&self) {
    }

    /// A copy of the body, which has to be a block.
    pub fn get_body_block_stmt(&self) -> (r: Result<BlockStmt, InternalError>)
        ensures
            match self@.function.body() {
                Some(BlockStmtOrExprView::BlockStmt(b)) => r is Ok && r->Ok_0@ == b,
                Some(BlockStmtOrExprView::Expr(_)) => r is Err && r->Err_0
                    == InternalError::ExpectedBlock,
                None => r is Err && r->Err_0 == InternalError::MissingBody,
            },
            self.wf() ==> (r is Ok || r->Err_0 == InternalError::MissingBody),
    {
        match self.function.get_body() {
            Ok(body) => match body {
                BlockStmtOrExpr::BlockStmt(block_stmt) => Ok(block_stmt),
                BlockStmtOrExpr::Expr(_) => Err(InternalError::ExpectedBlock),
            },
            Err(e) => Err(e),
        }
    }
}

/// The components and hooks found in one file, in the order in which they
/// were found.
#[derive(Debug, PartialEq, Eq)]
pub struct State {
    components: Vec<Component>,
}

impl View for State {
    type V = Seq<ComponentView>;

    closed spec fn view(&self) -> Seq<ComponentView> {
        components_view(self.components@)
    }
}

impl Default for State {
    fn default() -> (r: Self)
        ensures
            r@ == Seq::<ComponentView>::empty(),
    {
        let r = State { components: Vec::new() };
        r
    }
}

impl State {
    /// What was found so far.
    pub fn components(&self) -> (r: &Vec<Component>)
        ensures
            components_view(r@) == self@,
    {
        &self.components
    }

    /// How many were found so far.
    pub fn len(&self) -> (r: usize)
        ensures
            r == self@.len(),
    {
        self.components.len()
    }

    /// Records one more.
    pub(crate) fn push(&mut self, component: Component)
        ensures
            final(self)@ == old(self)@.push(component@),
    {
        self.components.push(component);
    }
}

} // verus!
