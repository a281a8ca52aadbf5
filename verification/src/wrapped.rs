//! The wrapped form of a node: one type for a node of any kind, and the
//! traits that every raw and every wrapped node has.

use vstd::prelude::*;
use crate::node::AnyNodeArc;
use crate::node_behavior::NodeBehavior;
use crate::sandbox::{ContextWeak, Sandbox};

verus! {

/// An input event.
#[derive(Clone, Copy, Debug, Default)]
pub struct InputEvent {}

/// What every raw node has.
pub trait AnyRawNode: Sized {
    /// The type-erased handle to the node.
    spec fn raw(&self) -> AnyNodeArc;

    /// A non-owning reference to the sandbox that the node was created in.
    fn get_context(&self) -> (context: ContextWeak)
        ensures
            context == self.raw().context,
    ;

    /// Creates a node with the same payload and the same context, and with
    /// no children.
    fn clone_node(&self, sandbox: &mut Sandbox) -> (copy: AnyNodeArc)
        requires
            old(sandbox).wf(),
            old(sandbox)@.owns(self.raw()),
        ensures
            final(sandbox).wf(),
            final(sandbox)@ == old(sandbox)@.with_node(self.raw().contents),
            copy == old(sandbox)@.next_node(self.raw().contents),
            copy.context == self.raw().context,
    ;
}

/// What every wrapped node has.
pub trait AnyWrappedNode: Sized {
    /// The node that is wrapped.
    spec fn wrapped(&self) -> AnyNodeArc;

    /// A non-owning reference to the sandbox that the node was created in.
    fn get_context(&self) -> (context: ContextWeak)
        ensures
            context == self.wrapped().context,
    ;
}

/// Any wrapped node.
#[derive(Debug)]
pub struct Node(pub AnyNodeArc);

impl AnyRawNode for AnyNodeArc {
    open spec fn raw(&self) -> AnyNodeArc {
        *self
    }

    fn get_context(&self) -> (context: ContextWeak) {
        self.context
    }

    fn clone_node(&self, sandbox: &mut Sandbox) -> (copy: AnyNodeArc) {
        NodeBehavior::clone_node(self, sandbox)
    }
}

impl AnyWrappedNode for Node {
    open spec fn wrapped(&self) -> AnyNodeArc {
        self.0
    }

    fn get_context(&self) -> (context: ContextWeak) {
        self.0.context
    }
}

impl From<AnyNodeArc> for Node {
    /// The node, wrapped.
    fn from(source: AnyNodeArc) -> (node: Node) {
        Node(source)
    }
}

impl vstd::std_specs::convert::FromSpecImpl<AnyNodeArc> for Node {
    open spec fn obeys_from_spec() -> bool {
        true
    }

    open spec fn from_spec(source: AnyNodeArc) -> Node {
        Node(source)
    }
}

} // verus!
