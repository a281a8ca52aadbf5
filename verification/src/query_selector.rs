//! Search for the first node, in document order, that a selector selects.

use vstd::prelude::*;
use crate::error::DomError;
use crate::contents::NodeType;
use crate::element::ElementNodeStore;
use crate::node::{AnyNodeArc, ElementNodeArc};
use crate::sandbox::{Sandbox, SandboxView};
use crate::selector::{is_valid_selector, upper_cased, Selector};

verus! {

/// Whether a node is selected by the tag name `tag`: it is an element, and
/// its tag name is `tag`.
pub open spec fn selects(tag: Seq<char>, node: AnyNodeArc) -> bool {
    node.contents.tag() == Some(tag)
}

impl SandboxView {
    /// The first node selected by `tag` among the descendants of the node at
    /// `root` that stand in or below its children from index `from` on, in
    /// document order: a child comes before its own descendants, and these
    /// before the child's next sibling.
    pub open spec fn first_match_from(self, root: int, from: int, tag: Seq<char>) -> Option<
        AnyNodeArc,
    >
        decreases self.rank()[root], self.nodes[root].children.len() - from,
        when self.wf() && 0 <= root < self.nodes.len() && 0 <= from
        via Self::first_match_from_decreases
    {
        let children = self.nodes[root].children;
        if from >= children.len() {
            None
        } else if selects(tag, children[from]) {
            Some(children[from])
        } else {
            match self.first_match_from(children[from].common as int, 0, tag) {
                Some(found) => Some(found),
                None => self.first_match_from(root, from + 1, tag),
            }
        }
    }

    #[via_fn]
    proof fn first_match_from_decreases(self, root: int, from: int, tag: Seq<char>) {
        self.lemma_rank();
        let children = self.nodes[root].children;
        if from < children.len() {
            assert(self.owns(self.nodes[root].children[from]));
        }
    }

    /// The first node selected by `tag` among the descendants of the node at
    /// `root`, in document order. The node at `root` itself is not looked at.
    pub open spec fn first_match_below(self, root: int, tag: Seq<char>) -> Option<AnyNodeArc> {
        self.first_match_from(root, 0, tag)
    }

    /// The first node selected by `tag` among `root` and its descendants, in
    /// document order: `root` itself comes first.
    pub open spec fn first_match_within(self, root: AnyNodeArc, tag: Seq<char>) -> Option<
        AnyNodeArc,
    > {
        if selects(tag, root) {
            Some(root)
        } else {
            self.first_match_from(root.common as int, 0, tag)
        }
    }
}

/// What a search from index `from` finds is selected by the tag searched for.
pub proof fn lemma_first_match_from_is_selected(
    sandbox: SandboxView,
    root: int,
    from: int,
    tag: Seq<char>,
)
    requires
        sandbox.wf(),
        0 <= root < sandbox.nodes.len(),
        0 <= from,
    ensures
        sandbox.first_match_from(root, from, tag) matches Some(found) ==> selects(tag, found),
    decreases sandbox.rank()[root], sandbox.nodes[root].children.len() - from,
{
    let children = sandbox.nodes[root].children;
    if from < children.len() {
        sandbox.lemma_rank();
        assert(sandbox.owns(sandbox.nodes[root].children[from]));
        if !selects(tag, children[from]) {
            lemma_first_match_from_is_selected(sandbox, children[from].common as int, 0, tag);
            lemma_first_match_from_is_selected(sandbox, root, from + 1, tag);
        }
    }
}

/// What a search finds is selected by the tag searched for, and so is an
/// element.
pub proof fn lemma_first_match_is_selected(sandbox: SandboxView, root: AnyNodeArc, tag: Seq<char>)
    requires
        sandbox.wf(),
        root.common < sandbox.nodes.len(),
    ensures
        sandbox.first_match_within(root, tag) matches Some(found) ==> selects(tag, found)
            && found.node_type() == NodeType::Element,
{
    lemma_first_match_from_is_selected(sandbox, root.common as int, 0, tag);
}

/// Whether `selector` selects `node`: the node is an element whose tag name
/// is the selector's.
pub fn is_selected(node: &AnyNodeArc, selector: &Selector) -> (selected: bool)
    ensures
        selected == selects(selector@, *node),
{
    match node.tag_name() {
        Some(name) => selector.matches_tag(&name),
        None => false,
    }
}

impl Selector {
    /// Whether the selector selects `element`: the tag names are equal.
    pub fn is_selected_element(&self, element: ElementNodeArc) -> (selected: bool)
        ensures
            selected == (element.contents.tag() == self@),
    {
        let name = element.contents().tag_name();
        self.matches_tag(&name)
    }

    /// The element handle to `node`, where the selector selects the node, and
    /// nothing where it does not.
    pub fn matches_selected_node(&self, node: &AnyNodeArc) -> (element: Option<ElementNodeArc>)
        ensures
            element is Some <==> selects(self@, *node),
            element matches Some(e) ==> e.erased() == *node,
    {
        if is_selected(node, self) {
            match node.clone().try_into_concrete::<ElementNodeStore>() {
                Ok(element) => Some(element),
                Err(_) => None,
            }
        } else {
            None
        }
    }

    /// The element handle to `node`, where the selector selects the node;
    /// the node itself, handed back, where it does not.
    pub fn filter_selected_node(&self, node: AnyNodeArc) -> (element: Result<
        ElementNodeArc,
        AnyNodeArc,
    >)
        ensures
            element is Ok <==> selects(self@, node),
            element matches Ok(e) ==> e.erased() == node,
            element matches Err(n) ==> n == node,
    {
        match self.matches_selected_node(&node) {
            Some(element) => Ok(element),
            None => Err(node),
        }
    }
}

/// The first node below the node at `root` that `selector` selects, in
/// document order, or nothing where there is none. The node at `root` itself
/// is not looked at.
pub fn query_selector_rec(sandbox: &Sandbox, root: usize, selector: &Selector) -> (found: Option<
    AnyNodeArc,
>)
    requires
        sandbox.wf(),
        root < sandbox@.nodes.len(),
    ensures
        found == sandbox@.first_match_below(root as int, selector@),
    decreases sandbox@.rank()[root as int],
{
    let count: usize = sandbox.child_count(root);
    let mut index: usize = 0;
    while index < count
        invariant
            sandbox.wf(),
            root < sandbox@.nodes.len(),
            count == sandbox@.children(root).len(),
            index <= count,
            sandbox@.first_match_from(root as int, 0, selector@) == sandbox@.first_match_from(
                root as int,
                index as int,
                selector@,
            ),
        decreases count - index,
    {
        let child = sandbox.child_at(root, index);
        proof {
            sandbox@.lemma_rank();
            assert(sandbox@.owns(sandbox@.nodes[root as int].children[index as int]));
        }
        if is_selected(&child, selector) {
            return Some(child);
        }
        let deeper = query_selector_rec(sandbox, child.common, selector);
        if deeper.is_some() {
            return deeper;
        }
        index = index + 1;
    }
    None
}

/// Parses `selector` and searches below `root` for the first node that it
/// selects, in document order. `root` itself is never the answer. A selector
/// that holds anything but ASCII letters and digits is refused.
pub fn query_selector(sandbox: &Sandbox, root: &AnyNodeArc, selector: &str) -> (found: Result<
    Option<AnyNodeArc>,
    DomError,
>)
    requires
        sandbox.wf(),
        root.common < sandbox@.nodes.len(),
    ensures
        found == if is_valid_selector(selector@) {
            Ok::<Option<AnyNodeArc>, DomError>(
                sandbox@.first_match_below(root.common as int, upper_cased(selector@)),
            )
        } else {
            Err::<Option<AnyNodeArc>, DomError>(DomError::InvalidQuerySelector)
        },
{
    match Selector::from_str(selector) {
        Ok(parsed) => Ok(query_selector_rec(sandbox, root.common, &parsed)),
        Err(e) => Err(e),
    }
}

} // verus!
