//! The sandbox: the isolated domain that owns every node record of one tree,
//! and the graph of owned children between those records.

use vstd::prelude::*;
use std::sync::Arc;
use crate::contents::{DocumentStore, NodeContentsArc, NodeType};
use crate::node::{AnyNodeArc, AnyNodeWeak, ConcreteNodeArc};

verus! {

/// A non-owning reference to a sandbox. It resolves only in the sandbox it
/// was taken from, and only while that sandbox has not been torn down.
#[derive(Clone, Copy, Debug, Default, PartialEq, Eq, Structural)]
pub struct ContextWeak {
    pub token: u64,
}

/// The record that every node has, whatever its kind: the sandbox it was
/// created in, a descriptor of itself, and the children it owns, in order.
pub struct NodeCommon {
    this: AnyNodeWeak,
    children: Vec<AnyNodeArc>,
}

/// What a node record holds.
pub struct NodeView {
    pub this: AnyNodeArc,
    pub children: Seq<AnyNodeArc>,
}

impl View for NodeCommon {
    type V = NodeView;

    closed spec fn view(&self) -> NodeView {
        NodeView { this: self.this.strong(), children: self.children@ }
    }
}

/// The sandbox with the records of all nodes created in it. A node's handle
/// holds the record's place in the sandbox.
pub struct Sandbox {
    token: u64,
    live: bool,
    nodes: Vec<NodeCommon>,
}

/// What a sandbox holds: its identity, whether it is still alive, and the
/// node records by their place.
pub struct SandboxView {
    pub token: u64,
    pub live: bool,
    pub nodes: Seq<NodeView>,
}

impl View for Sandbox {
    type V = SandboxView;

    closed spec fn view(&self) -> SandboxView {
        SandboxView {
            token: self.token,
            live: self.live,
            nodes: Seq::new(self.nodes@.len(), |i: int| self.nodes@[i]@),
        }
    }
}

impl SandboxView {
    /// Whether `node` is a handle to a node of this sandbox.
    pub open spec fn owns(self, node: AnyNodeArc) -> bool {
        node.common < self.nodes.len() && self.nodes[node.common as int].this == node
    }

    /// Whether the non-owning reference `context` resolves here.
    pub open spec fn resolves(self, context: ContextWeak) -> bool {
        self.live && context.token == self.token
    }

    /// Whether the record that the non-owning handle `node` leads to is to be
    /// found here: the node was created in this sandbox.
    pub open spec fn holds(self, node: AnyNodeWeak) -> bool {
        node.context.token == self.token && node.common < self.nodes.len()
    }

    /// Whether the non-owning handle `node` resolves: the sandbox is alive
    /// and holds the node's record.
    pub open spec fn resolves_node(self, node: AnyNodeWeak) -> bool {
        self.live && self.holds(node)
    }

    /// The children of the node at `node`, in order.
    pub open spec fn children(self, node: usize) -> Seq<AnyNodeArc> {
        self.nodes[node as int].children
    }

    /// Whether `rank` gives every child a smaller number than its parent.
    pub open spec fn ranked(self, rank: Seq<nat>) -> bool {
        &&& rank.len() == self.nodes.len()
        &&& forall|i: int, j: int|
            0 <= i < self.nodes.len() && 0 <= j < self.nodes[i].children.len() ==> {
                let child = #[trigger] self.nodes[i].children[j];
                child.common < rank.len() && rank[child.common as int] < rank[i]
            }
    }

    /// Whether no node is its own descendant.
    pub open spec fn acyclic(self) -> bool {
        exists|rank: Seq<nat>| self.ranked(rank)
    }

    /// Some numbering under which every child is below its parent.
    pub open spec fn rank(self) -> Seq<nat> {
        choose|rank: Seq<nat>| self.ranked(rank)
    }

    /// The validity of a sandbox: the first record is the document, every
    /// record describes itself, every child is a node of this sandbox, and no
    /// node is its own descendant.
    pub open spec fn wf(self) -> bool {
        &&& self.nodes.len() >= 1
        &&& self.nodes[0].this.node_type() == NodeType::Document
        &&& forall|i: int|
            0 <= i < self.nodes.len() ==> (#[trigger] self.nodes[i]).this.common == i
                && self.nodes[i].this.context.token == self.token
        &&& forall|i: int, j: int|
            0 <= i < self.nodes.len() && 0 <= j < self.nodes[i].children.len() ==> self.owns(
                #[trigger] self.nodes[i].children[j],
            )
        &&& self.acyclic()
    }

    /// In a valid sandbox, the numbering that `rank` picks puts every child
    /// below its parent.
    pub proof fn lemma_rank(self)
        requires
            self.acyclic(),
        ensures
            self.ranked(self.rank()),
    {
    }

    /// Whether the node at `to` is the node at `from` or one of its
    /// descendants.
    pub open spec fn reaches(self, from: int, to: int) -> bool
        decreases self.rank()[from],
        when self.wf() && 0 <= from < self.nodes.len()
        via Self::reaches_decreases
    {
        from == to || exists|j: int|
            0 <= j < self.nodes[from].children.len() && self.reaches(
                (#[trigger] self.nodes[from].children[j]).common as int,
                to,
            )
    }

    #[via_fn]
    proof fn reaches_decreases(self, from: int, to: int) {
        self.lemma_rank();
        assert forall|j: int| 0 <= j < self.nodes[from].children.len() implies self.rank()[self.nodes[from].children[j].common as int]
            < self.rank()[from] by {
            assert(self.owns(self.nodes[from].children[j]));
        }
    }

    /// The sandbox torn down: nothing but its liveness changes.
    pub open spec fn torn_down(self) -> SandboxView {
        SandboxView { live: false, ..self }
    }

    /// The handle of the node that the next creation adds, for the payload
    /// `contents`.
    pub open spec fn next_node(self, contents: NodeContentsArc) -> AnyNodeArc {
        AnyNodeArc {
            contents,
            common: self.nodes.len() as usize,
            context: ContextWeak { token: self.token },
        }
    }

    /// The sandbox with one more node, which has the payload `contents`, this
    /// sandbox as its context and no children.
    pub open spec fn with_node(self, contents: NodeContentsArc) -> SandboxView {
        SandboxView {
            nodes: self.nodes.push(
                NodeView { this: self.next_node(contents), children: Seq::empty() },
            ),
            ..self
        }
    }

    /// The sandbox with `child` as the new last child of the node at `parent`.
    pub open spec fn with_child(self, parent: usize, child: AnyNodeArc) -> SandboxView {
        SandboxView {
            nodes: self.nodes.update(
                parent as int,
                NodeView {
                    children: self.nodes[parent as int].children.push(child),
                    ..self.nodes[parent as int]
                },
            ),
            ..self
        }
    }

    /// Whether `child` can become a child of the node at `parent`: both are
    /// nodes of this sandbox, and the new edge makes no node its own descendant.
    pub open spec fn can_append(self, parent: usize, child: AnyNodeArc) -> bool {
        &&& parent < self.nodes.len()
        &&& self.owns(child)
        &&& self.with_child(parent, child).acyclic()
    }
}

impl Sandbox {
    /// The validity of the sandbox.
    pub open spec fn wf(&self) -> bool {
        self@.wf()
    }

    /// A new sandbox with the identity `token`, which the caller chooses: two
    /// sandboxes whose handles may meet need different tokens. The sandbox is
    /// alive and holds one node, the document, which has no children.
    pub fn new(token: u64) -> (sandbox: Sandbox)
        ensures
            sandbox.wf(),
            sandbox@.live,
            sandbox@.token == token,
            sandbox@.nodes.len() == 1,
            sandbox@.nodes[0].children == Seq::<AnyNodeArc>::empty(),
            sandbox@.nodes[0].this == (AnyNodeArc {
                contents: NodeContentsArc::Document(
                    Arc::new(DocumentStore { default_view: ContextWeak { token } }),
                ),
                common: 0,
                context: ContextWeak { token },
            }),
    {
        let document = AnyNodeWeak {
            contents: NodeContentsArc::Document(
                Arc::new(DocumentStore { default_view: ContextWeak { token } }),
            ),
            common: 0,
            context: ContextWeak { token },
        };
        let mut nodes: Vec<NodeCommon> = Vec::new();
        nodes.push(NodeCommon { this: document, children: Vec::new() });
        let sandbox = Sandbox { token, live: true, nodes };
        proof {
            assert(sandbox@.ranked(seq![0nat]));
        }
        sandbox
    }

    /// The document of this sandbox: its first node.
    pub fn document(&self) -> (document: ConcreteNodeArc<DocumentStore>)
        requires
            self.wf(),
        ensures
            document.erased() == self@.nodes[0].this,
            document.common == 0,
    {
        assert(self@.nodes[0] == self.nodes@[0]@);
        let context = self.nodes[0].this.context;
        match self.nodes[0].this.contents.clone() {
            NodeContentsArc::Document(contents) => ConcreteNodeArc { contents, common: 0, context },
            _ => vstd::pervasive::unreached(),
        }
    }

    /// A non-owning reference to this sandbox.
    pub fn downgrade(&self) -> (context: ContextWeak)
        ensures
            context.token == self@.token,
    {
        ContextWeak { token: self.token }
    }

    /// Whether the sandbox is still alive.
    pub fn is_live(&self) -> (live: bool)
        ensures
            live == self@.live,
    {
        self.live
    }

    /// Whether the non-owning reference `context` resolves in this sandbox:
    /// it was taken from this sandbox, and the sandbox is still alive.
    pub fn resolves(&self, context: &ContextWeak) -> (resolved: bool)
        ensures
            resolved == self@.resolves(*context),
    {
        self.live && context.token == self.token
    }

    /// Whether the record that the non-owning handle `node` leads to is to be
    /// found in this sandbox, alive or not.
    pub fn holds(&self, node: &AnyNodeWeak) -> (held: bool)
        ensures
            held == self@.holds(*node),
    {
        node.context.token == self.token && node.common < self.nodes.len()
    }

    /// Whether the non-owning handle `node` resolves in this sandbox: the
    /// sandbox is alive and holds the node's record.
    pub fn resolves_node(&self, node: &AnyNodeWeak) -> (resolved: bool)
        ensures
            resolved == self@.resolves_node(*node),
    {
        self.live && self.holds(node)
    }

    /// Tears the sandbox down. From here on no reference to it resolves. The
    /// node records stay, for the handles that still hold them.
    pub fn teardown(&mut self)
        ensures
            final(self)@ == old(self)@.torn_down(),
    {
        self.live = false;
        assert(final(self)@.nodes =~= old(self)@.nodes);
    }

    /// The number of node records.
    pub fn node_count(&self) -> (count: usize)
        ensures
            count == self@.nodes.len(),
    {
        self.nodes.len()
    }

    /// Adds a node with the payload `contents`, this sandbox as its context
    /// and no children, and returns the handle to it. The node is created
    /// whether or not the sandbox is still alive.
    pub fn create_node(&mut self, contents: NodeContentsArc) -> (node: AnyNodeArc)
        requires
            old(self).wf(),
        ensures
            final(self).wf(),
            final(self)@ == old(self)@.with_node(contents),
            node == old(self)@.next_node(contents),
            final(self)@.owns(node),
    {
        let common: usize = self.nodes.len();
        let context = ContextWeak { token: self.token };
        let node = AnyNodeArc { contents: contents.clone(), common, context };
        let this = AnyNodeWeak { contents, common, context };
        self.nodes.push(NodeCommon { this, children: Vec::new() });
        proof {
            let before = old(self)@;
            let after = final(self)@;
            assert(after.nodes =~= before.with_node(contents).nodes);
            let rank = before.rank();
            assert(before.ranked(rank));
            assert(after.ranked(rank.push(0)));
        }
        node
    }

    /// The descriptor that the node at `node` holds of itself.
    pub fn self_arc(&self, node: usize) -> (this: AnyNodeArc)
        requires
            node < self@.nodes.len(),
        ensures
            this == self@.nodes[node as int].this,
    {
        let record = &self.nodes[node];
        AnyNodeArc {
            contents: record.this.contents.clone(),
            common: record.this.common,
            context: record.this.context,
        }
    }

    /// The number of children of the node at `node`.
    pub fn child_count(&self, node: usize) -> (count: usize)
        requires
            node < self@.nodes.len(),
        ensures
            count == self@.children(node).len(),
    {
        self.nodes[node].children.len()
    }

    /// The child of the node at `node` that stands at `index`.
    pub fn child_at(&self, node: usize, index: usize) -> (child: AnyNodeArc)
        requires
            node < self@.nodes.len(),
            index < self@.children(node).len(),
        ensures
            child == self@.children(node)[index as int],
    {
        self.nodes[node].children[index].clone()
    }

    /// Whether the node at `node` is the node at `root` or one of its
    /// descendants. A node that does not contain `parent` can become a child
    /// of `parent`.
    pub fn contains(&self, root: usize, node: usize) -> (found: bool)
        requires
            self.wf(),
            root < self@.nodes.len(),
        ensures
            found == self@.reaches(root as int, node as int),
        decreases self@.rank()[root as int],
    {
        if root == node {
            return true;
        }
        let count: usize = self.child_count(root);
        let mut index: usize = 0;
        while index < count
            invariant
                self.wf(),
                root < self@.nodes.len(),
                root != node,
                count == self@.nodes[root as int].children.len(),
                index <= count,
                forall|k: int|
                    0 <= k < index ==> !self@.reaches(
                        (#[trigger] self@.nodes[root as int].children[k]).common as int,
                        node as int,
                    ),
            decreases count - index,
        {
            let child = self.child_at(root, index);
            proof {
                self@.lemma_rank();
                assert(self@.owns(self@.nodes[root as int].children[index as int]));
            }
            if self.contains(child.common, node) {
                return true;
            }
            index = index + 1;
        }
        false
    }

    /// Appends `child` as the new last child of the node at `parent`.
    pub fn append_child(&mut self, parent: usize, child: AnyNodeArc)
        requires
            old(self).wf(),
            old(self)@.can_append(parent, child),
        ensures
            final(self).wf(),
            final(self)@ == old(self)@.with_child(parent, child),
    {
        self.nodes[parent].children.push(child);
        proof {
            let before = old(self)@;
            let after = final(self)@;
            assert(after.nodes =~= before.with_child(parent, child).nodes);
            assert forall|i: int, j: int|
                0 <= i < after.nodes.len() && 0 <= j < after.nodes[i].children.len() implies after.owns(
                #[trigger] after.nodes[i].children[j],
            ) by {
                if i == parent && j == before.nodes[i].children.len() {
                } else {
                    assert(before.owns(before.nodes[i].children[j]));
                }
            }
        }
    }
}

} // verus!
