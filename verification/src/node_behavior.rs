//! What every node can do in the graph, whatever its kind: give its first and
//! last child, take a new child, list its children, and make a copy of itself.

use vstd::prelude::*;
use crate::contents::NodePayload;
use crate::node::{AnyNodeArc, ConcreteNodeArc};
use crate::node_list::{NodeList, NodeListStorage, Query};
use crate::sandbox::Sandbox;

verus! {

/// The graph operations of a node handle.
pub trait NodeBehavior: Sized {
    /// The type-erased handle to the node.
    spec fn any(&self) -> AnyNodeArc;

    /// The first child of the node, or nothing where it has none.
    fn first_child(&self, sandbox: &Sandbox) -> (child: Option<AnyNodeArc>)
        requires
            self.any().common < sandbox@.nodes.len(),
        ensures
            child == if sandbox@.children(self.any().common).len() > 0 {
                Some(sandbox@.children(self.any().common).first())
            } else {
                None
            },
    ;

    /// The last child of the node, or nothing where it has none.
    fn last_child(&self, sandbox: &Sandbox) -> (child: Option<AnyNodeArc>)
        requires
            self.any().common < sandbox@.nodes.len(),
        ensures
            child == if sandbox@.children(self.any().common).len() > 0 {
                Some(sandbox@.children(self.any().common).last())
            } else {
                None
            },
    ;

    /// Appends `other` as the new last child of the node. Nothing else in the
    /// sandbox changes.
    fn append_child(&self, sandbox: &mut Sandbox, other: AnyNodeArc)
        requires
            old(sandbox).wf(),
            old(sandbox)@.can_append(self.any().common, other),
        ensures
            final(sandbox).wf(),
            final(sandbox)@ == old(sandbox)@.with_child(self.any().common, other),
    ;

    /// The live list of the node's children.
    fn child_nodes(&self) -> (list: NodeList)
        ensures
            list.context == self.any().context,
            list.nodelist_storage == NodeListStorage::Live(
                Query::ChildNodes { children_of: self.any().weak() },
            ),
    ;

    /// Creates a node with the same payload and the same context, and with
    /// no children: the children of the node are not copied.
    fn clone_node(&self, sandbox: &mut Sandbox) -> (copy: AnyNodeArc)
        requires
            old(sandbox).wf(),
            old(sandbox)@.owns(self.any()),
        ensures
            final(sandbox).wf(),
            final(sandbox)@ == old(sandbox)@.with_node(self.any().contents),
            copy == old(sandbox)@.next_node(self.any().contents),
            copy.contents == self.any().contents,
            copy.context == self.any().context,
            final(sandbox)@.owns(copy),
    ;

    /// The number of the node's kind, from 1 for an element to 9 for a
    /// document fragment.
    fn get_node_type(&self) -> (number: isize)
        ensures
            number == self.any().node_type().number(),
    ;
}

impl NodeBehavior for AnyNodeArc {
    open spec fn any(&self) -> AnyNodeArc {
        *self
    }

    fn first_child(&self, sandbox: &Sandbox) -> (child: Option<AnyNodeArc>) {
        if sandbox.child_count(self.common) > 0 {
            Some(sandbox.child_at(self.common, 0))
        } else {
            None
        }
    }

    fn last_child(&self, sandbox: &Sandbox) -> (child: Option<AnyNodeArc>) {
        let count: usize = sandbox.child_count(self.common);
        if count > 0 {
            Some(sandbox.child_at(self.common, count - 1))
        } else {
            None
        }
    }

    fn append_child(&self, sandbox: &mut Sandbox, other: AnyNodeArc) {
        sandbox.append_child(self.common, other)
    }

    fn child_nodes(&self) -> (list: NodeList) {
        NodeList::new(
            self.context,
            NodeListStorage::Live(Query::ChildNodes { children_of: self.downgrade() }),
        )
    }

    fn clone_node(&self, sandbox: &mut Sandbox) -> (copy: AnyNodeArc) {
        sandbox.create_node(self.contents.clone())
    }

    fn get_node_type(&self) -> (number: isize) {
        self.contents.to_node_type().get_node_number()
    }
}

impl<T: NodePayload> NodeBehavior for ConcreteNodeArc<T> {
    open spec fn any(&self) -> AnyNodeArc {
        self.erased()
    }

    fn first_child(&self, sandbox: &Sandbox) -> (child: Option<AnyNodeArc>) {
        if sandbox.child_count(self.common) > 0 {
            Some(sandbox.child_at(self.common, 0))
        } else {
            None
        }
    }

    fn last_child(&self, sandbox: &Sandbox) -> (child: Option<AnyNodeArc>) {
        let count: usize = sandbox.child_count(self.common);
        if count > 0 {
            Some(sandbox.child_at(self.common, count - 1))
        } else {
            None
        }
    }

    fn append_child(&self, sandbox: &mut Sandbox, other: AnyNodeArc) {
        sandbox.append_child(self.common, other)
    }

    fn child_nodes(&self) -> (list: NodeList) {
        self.clone().into_any().child_nodes()
    }

    fn clone_node(&self, sandbox: &mut Sandbox) -> (copy: AnyNodeArc) {
        self.clone().into_any().clone_node(sandbox)
    }

    fn get_node_type(&self) -> (number: isize) {
        proof {
            T::lemma_erase_narrow(self.contents);
        }
        T::kind().get_node_number()
    }
}

} // verus!
