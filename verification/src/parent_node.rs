//! The parent-node capability: counting element children and searching the
//! subtree of a node, itself included.

use vstd::prelude::*;
use crate::contents::{NodePayload, NodeType};
use crate::element::ElementNodeStore;
use crate::error::DomError;
use crate::node::{AnyNodeArc, AnyNodeWeak, ConcreteNodeArc, ElementNodeArc};
use crate::query_selector::{is_selected, lemma_first_match_is_selected, query_selector_rec};
use crate::sandbox::Sandbox;
use crate::selector::Selector;

verus! {

/// The number of elements among `nodes`.
pub open spec fn element_count(nodes: Seq<AnyNodeArc>) -> nat
    decreases nodes.len(),
{
    if nodes.len() == 0 {
        0
    } else {
        element_count(nodes.drop_last()) + if nodes.last().node_type() == NodeType::Element {
            1nat
        } else {
            0nat
        }
    }
}

/// What the parent-node capability of a node needs: a non-owning handle to
/// the node.
pub struct ParentNodeBehaviorStorage {
    pub node: AnyNodeWeak,
}

impl ParentNodeBehaviorStorage {
    /// The capability for `node`.
    pub fn new(node: AnyNodeWeak) -> (storage: ParentNodeBehaviorStorage)
        ensures
            storage.node == node,
    {
        ParentNodeBehaviorStorage { node }
    }

    /// The number of children of the node that are elements, or
    /// `SandboxDropped` where the node no longer resolves.
    pub fn child_element_count(&self, sandbox: &Sandbox) -> (count: Result<usize, DomError>)
        ensures
            count == if sandbox@.resolves_node(self.node) {
                Ok::<usize, DomError>(
                    element_count(sandbox@.children(self.node.common)) as usize,
                )
            } else {
                Err::<usize, DomError>(DomError::SandboxDropped)
            },
            sandbox@.resolves_node(self.node) ==> element_count(
                sandbox@.children(self.node.common),
            ) <= sandbox@.children(self.node.common).len(),
    {
        if !sandbox.resolves_node(&self.node) {
            return Err(DomError::SandboxDropped);
        }
        let total: usize = sandbox.child_count(self.node.common);
        let ghost children = sandbox@.children(self.node.common);
        let mut count: usize = 0;
        let mut index: usize = 0;
        while index < total
            invariant
                self.node.common < sandbox@.nodes.len(),
                children == sandbox@.children(self.node.common),
                total == children.len(),
                index <= total,
                count <= index,
                count == element_count(children.subrange(0, index as int)),
            decreases total - index,
        {
            let child = sandbox.child_at(self.node.common, index);
            proof {
                assert(children.subrange(0, index + 1).drop_last() == children.subrange(
                    0,
                    index as int,
                ));
            }
            if child.contents.to_node_type() == NodeType::Element {
                count = count + 1;
            }
            index = index + 1;
        }
        assert(children.subrange(0, total as int) == children);
        Ok(count)
    }

    /// The first element that `selector` selects among the node and its
    /// descendants, in document order with the node itself first; nothing
    /// where there is none; `SandboxDropped` where the node no longer
    /// resolves.
    pub fn query_selector(&self, sandbox: &Sandbox, selector: &Selector) -> (found: Result<
        Option<ElementNodeArc>,
        DomError,
    >)
        requires
            sandbox.wf(),
        ensures
            found is Ok <==> sandbox@.resolves_node(self.node),
            found matches Err(e) ==> e == DomError::SandboxDropped,
            found matches Ok(hit) ==> {
                let first = sandbox@.first_match_within(
                    sandbox@.nodes[self.node.common as int].this,
                    selector@,
                );
                &&& hit is Some <==> first is Some
                &&& hit matches Some(element) ==> Some(element.erased()) == first
            },
    {
        if !sandbox.resolves_node(&self.node) {
            return Err(DomError::SandboxDropped);
        }
        let this = sandbox.self_arc(self.node.common);
        let first = if is_selected(&this, selector) {
            Some(this)
        } else {
            query_selector_rec(sandbox, self.node.common, selector)
        };
        match first {
            Some(node) => {
                proof {
                    lemma_first_match_is_selected(sandbox@, this, selector@);
                }
                match node.try_into_concrete::<ElementNodeStore>() {
                    Ok(element) => Ok(Some(element)),
                    Err(_) => vstd::pervasive::unreached(),
                }
            },
            None => Ok(None),
        }
    }
}

/// The parent-node capability of a node handle.
pub trait ParentNodeBehavior: Sized {
    /// The non-owning handle through which the capability finds the node.
    spec fn parent_node(&self) -> AnyNodeWeak;

    /// The number of children of the node that are elements, or
    /// `SandboxDropped` where the node no longer resolves.
    fn child_element_count(&self, sandbox: &Sandbox) -> (count: Result<usize, DomError>)
        ensures
            count == if sandbox@.resolves_node(self.parent_node()) {
                Ok::<usize, DomError>(
                    element_count(sandbox@.children(self.parent_node().common)) as usize,
                )
            } else {
                Err::<usize, DomError>(DomError::SandboxDropped)
            },
    ;

    /// The first element that `selector` selects among the node and its
    /// descendants, in document order with the node itself first; nothing
    /// where there is none; `SandboxDropped` where the node no longer
    /// resolves.
    fn query_selector(&self, sandbox: &Sandbox, selector: &Selector) -> (found: Result<
        Option<ElementNodeArc>,
        DomError,
    >)
        requires
            sandbox.wf(),
        ensures
            found is Ok <==> sandbox@.resolves_node(self.parent_node()),
            found matches Err(e) ==> e == DomError::SandboxDropped,
            found matches Ok(hit) ==> {
                let first = sandbox@.first_match_within(
                    sandbox@.nodes[self.parent_node().common as int].this,
                    selector@,
                );
                &&& hit is Some <==> first is Some
                &&& hit matches Some(element) ==> Some(element.erased()) == first
            },
    ;
}

impl ParentNodeBehavior for AnyNodeArc {
    open spec fn parent_node(&self) -> AnyNodeWeak {
        self.weak()
    }

    fn child_element_count(&self, sandbox: &Sandbox) -> (count: Result<usize, DomError>) {
        ParentNodeBehaviorStorage::new(self.downgrade()).child_element_count(sandbox)
    }

    fn query_selector(&self, sandbox: &Sandbox, selector: &Selector) -> (found: Result<
        Option<ElementNodeArc>,
        DomError,
    >) {
        ParentNodeBehaviorStorage::new(self.downgrade()).query_selector(sandbox, selector)
    }
}

impl<T: NodePayload> ParentNodeBehavior for ConcreteNodeArc<T> {
    open spec fn parent_node(&self) -> AnyNodeWeak {
        self.erased().weak()
    }

    fn child_element_count(&self, sandbox: &Sandbox) -> (count: Result<usize, DomError>) {
        self.clone().into_any().child_element_count(sandbox)
    }

    fn query_selector(&self, sandbox: &Sandbox, selector: &Selector) -> (found: Result<
        Option<ElementNodeArc>,
        DomError,
    >) {
        self.clone().into_any().query_selector(sandbox, selector)
    }
}

} // verus!
