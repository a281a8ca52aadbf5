//! Laws that relate the operations of the library to one another, stated
//! over what the operations' contracts speak of.

use vstd::prelude::*;
use crate::contents::NodePayload;
use crate::error::DomError;
use crate::node::{AnyNodeArc, AnyNodeWeak, ConcreteNodeArc};
use crate::node_list::{NodeList, NodeListStorage, Query};
use crate::query_selector::selects;
use crate::sandbox::{ContextWeak, SandboxView};

verus! {

/// The live list of the children of `node`, as `child_nodes` makes it.
pub open spec fn live_children(node: AnyNodeArc) -> NodeList {
    NodeList {
        context: node.context,
        nodelist_storage: NodeListStorage::Live(Query::ChildNodes { children_of: node.weak() }),
    }
}

/// After a child is appended to a node, the list of the node's children is
/// longer by one, and the node's last child is the child that was appended.
pub proof fn law_append_child(sandbox: SandboxView, parent: AnyNodeArc, child: AnyNodeArc)
    requires
        sandbox.holds(parent.weak()),
    ensures
        live_children(parent).items(sandbox.with_child(parent.common, child)).len()
            == live_children(parent).items(sandbox).len() + 1,
        sandbox.with_child(parent.common, child).children(parent.common).last() == child,
        sandbox.with_child(parent.common, child).children(parent.common)
            == sandbox.children(parent.common).push(child),
{
}

/// Appending a child to one node leaves the children of every other node as
/// they were.
pub proof fn law_append_child_elsewhere(
    sandbox: SandboxView,
    parent: usize,
    child: AnyNodeArc,
    other: usize,
)
    requires
        parent < sandbox.nodes.len(),
        other < sandbox.nodes.len(),
        other != parent,
    ensures
        sandbox.with_child(parent, child).children(other) == sandbox.children(other),
{
}

/// A node can be appended to any node of a valid sandbox that is neither
/// the node itself nor one of its descendants: no node becomes its own
/// descendant.
pub proof fn law_can_append(sandbox: SandboxView, parent: usize, child: AnyNodeArc)
    requires
        sandbox.wf(),
        parent < sandbox.nodes.len(),
        sandbox.owns(child),
        !sandbox.reaches(child.common as int, parent as int),
    ensures
        sandbox.can_append(parent, child),
{
    let rank = sandbox.rank();
    sandbox.lemma_rank();
    let lift = rank[child.common as int] + 1;
    let raised = Seq::new(
        rank.len(),
        |i: int|
            if sandbox.reaches(i, parent as int) {
                rank[i] + lift
            } else {
                rank[i]
            },
    );
    let after = sandbox.with_child(parent, child);
    assert(sandbox.reaches(parent as int, parent as int));
    assert forall|i: int, j: int|
        0 <= i < after.nodes.len() && 0 <= j < after.nodes[i].children.len() implies {
        let kid = #[trigger] after.nodes[i].children[j];
        kid.common < raised.len() && raised[kid.common as int] < raised[i]
    } by {
        if i == parent && j == sandbox.nodes[i].children.len() {
        } else {
            let kid = sandbox.nodes[i].children[j];
            assert(kid.common < rank.len() && rank[kid.common as int] < rank[i]);
            if sandbox.reaches(kid.common as int, parent as int) {
                assert(sandbox.reaches(i, parent as int));
            }
        }
    }
    assert(after.ranked(raised));
}

/// Under any numbering that puts children below parents once `child` is
/// appended to `parent`, a node that is reached from another is numbered no
/// higher than it.
proof fn lemma_reached_is_not_above(
    sandbox: SandboxView,
    parent: usize,
    child: AnyNodeArc,
    rank: Seq<nat>,
    from: int,
    to: int,
)
    requires
        sandbox.wf(),
        parent < sandbox.nodes.len(),
        sandbox.with_child(parent, child).ranked(rank),
        0 <= from < sandbox.nodes.len(),
        sandbox.reaches(from, to),
    ensures
        0 <= to < sandbox.nodes.len(),
        rank[to] <= rank[from],
    decreases sandbox.rank()[from],
{
    if from != to {
        let children = sandbox.nodes[from].children;
        let j = choose|j: int|
            0 <= j < children.len() && sandbox.reaches(
                (#[trigger] sandbox.nodes[from].children[j]).common as int,
                to,
            );
        sandbox.lemma_rank();
        assert(sandbox.owns(sandbox.nodes[from].children[j]));
        let after = sandbox.with_child(parent, child);
        assert(after.nodes[from].children[j] == children[j]);
        lemma_reached_is_not_above(sandbox, parent, child, rank, children[j].common as int, to);
    }
}

/// A node cannot be appended to itself or to one of its descendants: some
/// node would become its own descendant. So a node can be appended to
/// another exactly when it does not contain that other node.
pub proof fn law_can_append_exactly(sandbox: SandboxView, parent: usize, child: AnyNodeArc)
    requires
        sandbox.wf(),
        parent < sandbox.nodes.len(),
        sandbox.owns(child),
    ensures
        sandbox.can_append(parent, child) <==> !sandbox.reaches(child.common as int, parent as int),
{
    if !sandbox.reaches(child.common as int, parent as int) {
        law_can_append(sandbox, parent, child);
    } else if sandbox.can_append(parent, child) {
        let after = sandbox.with_child(parent, child);
        let rank = choose|rank: Seq<nat>| after.ranked(rank);
        lemma_reached_is_not_above(sandbox, parent, child, rank, child.common as int, parent as int);
        let last = sandbox.nodes[parent as int].children.len() as int;
        assert(after.nodes[parent as int].children[last] == child);
    }
}

/// A node that has no children can be appended to any other node of a valid
/// sandbox.
pub proof fn law_leaf_can_be_appended(sandbox: SandboxView, parent: usize, child: AnyNodeArc)
    requires
        sandbox.wf(),
        parent < sandbox.nodes.len(),
        sandbox.owns(child),
        sandbox.children(child.common).len() == 0,
        child.common != parent,
    ensures
        sandbox.can_append(parent, child),
{
    assert(!sandbox.reaches(child.common as int, parent as int));
    law_can_append(sandbox, parent, child);
}

/// A handle of a known kind that is erased and cast back to that kind is the
/// same handle; cast to any other kind, it fails with `NodeCastFail`.
pub proof fn law_cast_round_trip<T: NodePayload, U: NodePayload>(node: ConcreteNodeArc<T>)
    ensures
        node.erased().node_type() == T::node_type(),
        node.erased().concrete::<T>() == Ok::<ConcreteNodeArc<T>, DomError>(node),
        U::node_type() != T::node_type() ==> node.erased().concrete::<U>() == Err::<
            ConcreteNodeArc<U>,
            DomError,
        >(DomError::NodeCastFail),
{
    T::lemma_erase_narrow(node.contents);
    U::lemma_narrow_erase(node.erased().contents);
}

/// An erased handle can be cast to the kind `T` exactly when that is the
/// kind of its node, and the handle that it gives, erased again, is the
/// handle that was cast.
pub proof fn law_cast_by_kind<T: NodePayload>(node: AnyNodeArc)
    ensures
        node.concrete::<T>() is Ok <==> node.node_type() == T::node_type(),
        node.concrete::<T>() matches Ok(concrete) ==> concrete.erased() == node,
        node.concrete::<T>() matches Err(e) ==> e == DomError::NodeCastFail,
{
    T::lemma_narrow_erase(node.contents);
}

/// A live list shows a child that is appended after the list was made; a
/// frozen list holds the same nodes whatever happens to the tree.
pub proof fn law_live_and_static_lists(
    before: SandboxView,
    after: SandboxView,
    parent: AnyNodeArc,
    child: AnyNodeArc,
    frozen: NodeList,
)
    requires
        before.holds(parent.weak()),
        after == before.with_child(parent.common, child),
        frozen.nodelist_storage is Static,
    ensures
        live_children(parent).items(after) == live_children(parent).items(before).push(child),
        frozen.items(after) == frozen.items(before),
{
}

/// Once a sandbox is torn down, no reference to it resolves and no
/// non-owning handle to a node resolves in it; the node records stay as
/// they were.
pub proof fn law_teardown(sandbox: SandboxView, context: ContextWeak, node: AnyNodeWeak)
    ensures
        !sandbox.torn_down().resolves(context),
        !sandbox.torn_down().resolves_node(node),
        sandbox.torn_down().nodes == sandbox.nodes,
        sandbox.wf() ==> sandbox.torn_down().wf(),
{
    if sandbox.wf() {
        let rank = sandbox.rank();
        assert(sandbox.ranked(rank));
        assert(sandbox.torn_down().ranked(rank));
    }
}

/// A search that finds nothing below a node means that no child of the node
/// is selected and that nothing is found below any child: no node at any
/// depth is selected.
pub proof fn law_no_match(sandbox: SandboxView, root: int, tag: Seq<char>, index: int)
    requires
        sandbox.wf(),
        0 <= root < sandbox.nodes.len(),
        sandbox.first_match_below(root, tag) is None,
        0 <= index < sandbox.nodes[root].children.len(),
    ensures
        !selects(tag, sandbox.nodes[root].children[index]),
        sandbox.first_match_below(sandbox.nodes[root].children[index].common as int, tag) is None,
{
    lemma_none_from(sandbox, root, tag, 0, index);
}

/// A search from `from` that finds nothing has found nothing at `index`,
/// which is at or after `from`.
proof fn lemma_none_from(sandbox: SandboxView, root: int, tag: Seq<char>, from: int, index: int)
    requires
        sandbox.wf(),
        0 <= root < sandbox.nodes.len(),
        0 <= from <= index < sandbox.nodes[root].children.len(),
        sandbox.first_match_from(root, from, tag) is None,
    ensures
        !selects(tag, sandbox.nodes[root].children[index]),
        sandbox.first_match_from(sandbox.nodes[root].children[index].common as int, 0, tag) is None,
    decreases index - from,
{
    if from < index {
        lemma_none_from(sandbox, root, tag, from + 1, index);
    }
}

/// What a search below a node finds is the first selected node in document
/// order: some child at `index` is selected, or has the found node below it,
/// and no child before it is selected or has a selected node below it.
pub proof fn law_first_match(sandbox: SandboxView, root: int, tag: Seq<char>) -> (index: int)
    requires
        sandbox.wf(),
        0 <= root < sandbox.nodes.len(),
        sandbox.first_match_below(root, tag) is Some,
    ensures
        0 <= index < sandbox.nodes[root].children.len(),
        forall|earlier: int|
            0 <= earlier < index ==> !selects(tag, #[trigger] sandbox.nodes[root].children[earlier])
                && sandbox.first_match_below(
                sandbox.nodes[root].children[earlier].common as int,
                tag,
            ) is None,
        sandbox.first_match_below(root, tag) == if selects(
            tag,
            sandbox.nodes[root].children[index],
        ) {
            Some(sandbox.nodes[root].children[index])
        } else {
            sandbox.first_match_below(sandbox.nodes[root].children[index].common as int, tag)
        },
{
    lemma_first_from(sandbox, root, tag, 0)
}

/// The place at or after `from` where a search from `from` finds its node.
proof fn lemma_first_from(sandbox: SandboxView, root: int, tag: Seq<char>, from: int) -> (index:
    int)
    requires
        sandbox.wf(),
        0 <= root < sandbox.nodes.len(),
        0 <= from,
        sandbox.first_match_from(root, from, tag) is Some,
    ensures
        from <= index < sandbox.nodes[root].children.len(),
        forall|earlier: int|
            from <= earlier < index ==> !selects(
                tag,
                #[trigger] sandbox.nodes[root].children[earlier],
            ) && sandbox.first_match_from(
                sandbox.nodes[root].children[earlier].common as int,
                0,
                tag,
            ) is None,
        sandbox.first_match_from(root, from, tag) == if selects(
            tag,
            sandbox.nodes[root].children[index],
        ) {
            Some(sandbox.nodes[root].children[index])
        } else {
            sandbox.first_match_from(sandbox.nodes[root].children[index].common as int, 0, tag)
        },
    decreases sandbox.nodes[root].children.len() - from,
{
    let children = sandbox.nodes[root].children;
    if selects(tag, children[from]) {
        from
    } else if sandbox.first_match_from(children[from].common as int, 0, tag) is Some {
        from
    } else {
        lemma_first_from(sandbox, root, tag, from + 1)
    }
}

} // verus!
