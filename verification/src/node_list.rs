//! Node lists: a frozen sequence of handles, or a live view that is read from
//! the tree anew at every call.

use vstd::prelude::*;
use crate::node::{AnyNodeArc, AnyNodeWeak};
use crate::sandbox::{ContextWeak, Sandbox, SandboxView};

verus! {

/// What a live list enumerates.
#[derive(Debug)]
pub enum Query {
    /// The children of a node, which the list does not keep alive.
    ChildNodes { children_of: AnyNodeWeak },
}

/// How a node list answers.
#[derive(Debug)]
pub enum NodeListStorage {
    /// The handles that were captured when the list was made.
    Static(Vec<AnyNodeArc>),
    /// A query that is run again at every call.
    Live(Query),
}

/// A list of nodes, frozen or live.
#[derive(Debug)]
pub struct NodeList {
    /// The sandbox that this list belongs to.
    pub context: ContextWeak,
    /// The underlying storage.
    pub nodelist_storage: NodeListStorage,
}

impl NodeList {
    /// The handles that the list holds when read in `sandbox`. A frozen list
    /// holds what it was made with. A live list holds the present children
    /// of its node, and nothing where that node is not to be found in
    /// `sandbox`.
    pub open spec fn items(self, sandbox: SandboxView) -> Seq<AnyNodeArc> {
        match self.nodelist_storage {
            NodeListStorage::Static(list) => list@,
            NodeListStorage::Live(Query::ChildNodes { children_of }) => {
                if sandbox.holds(children_of) {
                    sandbox.children(children_of.common)
                } else {
                    Seq::empty()
                }
            },
        }
    }

    /// A list with the storage `nodelist_storage`.
    pub fn new(context: ContextWeak, nodelist_storage: NodeListStorage) -> (list: NodeList)
        ensures
            list.context == context,
            list.nodelist_storage == nodelist_storage,
    {
        NodeList { context, nodelist_storage }
    }

    /// A frozen list of `elements`.
    pub fn new_static(context: ContextWeak, elements: Vec<AnyNodeArc>) -> (list: NodeList)
        ensures
            list.context == context,
            list.nodelist_storage == NodeListStorage::Static(elements),
            forall|sandbox: SandboxView| #[trigger] list.items(sandbox) == elements@,
    {
        NodeList::new(context, NodeListStorage::Static(elements))
    }

    /// The number of nodes in the list, as it is now.
    pub fn length(&self, sandbox: &Sandbox) -> (count: usize)
        ensures
            count == self.items(sandbox@).len(),
    {
        match &self.nodelist_storage {
            NodeListStorage::Static(list) => list.len(),
            NodeListStorage::Live(query) => match query {
                Query::ChildNodes { children_of } => {
                    if sandbox.holds(children_of) {
                        sandbox.child_count(children_of.common)
                    } else {
                        0
                    }
                },
            },
        }
    }

    /// The node at `index` in the list, as it is now, or nothing where the
    /// list is shorter.
    pub fn item(&self, sandbox: &Sandbox, index: usize) -> (node: Option<AnyNodeArc>)
        ensures
            node == if index < self.items(sandbox@).len() {
                Some(self.items(sandbox@)[index as int])
            } else {
                None
            },
    {
        match &self.nodelist_storage {
            NodeListStorage::Static(list) => {
                if index < list.len() {
                    Some(list[index].clone())
                } else {
                    None
                }
            },
            NodeListStorage::Live(query) => match query {
                Query::ChildNodes { children_of } => {
                    if sandbox.holds(children_of) && index < sandbox.child_count(
                        children_of.common,
                    ) {
                        Some(sandbox.child_at(children_of.common, index))
                    } else {
                        None
                    }
                },
            },
        }
    }

    /// The node at `index`: another name for `item`.
    pub fn get(&self, sandbox: &Sandbox, index: usize) -> (node: Option<AnyNodeArc>)
        ensures
            node == if index < self.items(sandbox@).len() {
                Some(self.items(sandbox@)[index as int])
            } else {
                None
            },
    {
        self.item(sandbox, index)
    }
}

} // verus!
