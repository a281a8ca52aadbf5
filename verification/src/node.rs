//! Handles to nodes: type-erased or of a statically known kind, strong or
//! non-owning. A handle names a node of a sandbox by its place there and
//! shares the node's payload.

use vstd::prelude::*;
use std::sync::Arc;
use crate::contents::{share, NodeContentsArc, NodePayload, NodeType};
use crate::contents::{
    AttributeStore, CDataSectionStore, CommentStore, DocumentFragmentStore, DocumentStore,
    DocumentTypeStore, ProcessingInstructionStore, TextStore,
};
use crate::element::ElementNodeStore;
use crate::error::DomError;
use crate::sandbox::{ContextWeak, Sandbox};

verus! {

/// A type-erased handle to a node: the payload's kind is known at run time only.
#[derive(Debug)]
pub struct AnyNodeArc {
    pub contents: NodeContentsArc,
    pub common: usize,
    pub context: ContextWeak,
}

/// A type-erased, non-owning handle to a node. It has to be resolved in its
/// sandbox before use.
#[derive(Debug)]
pub struct AnyNodeWeak {
    pub contents: NodeContentsArc,
    pub common: usize,
    pub context: ContextWeak,
}

/// A handle to a node whose payload is known to be a `T`.
#[derive(Debug)]
pub struct ConcreteNodeArc<T> {
    pub contents: Arc<T>,
    pub common: usize,
    pub context: ContextWeak,
}

/// A non-owning handle to a node whose payload is known to be a `T`. It has to
/// be resolved in its sandbox before use.
#[derive(Debug)]
pub struct ConcreteNodeWeak<T> {
    pub contents: Arc<T>,
    pub common: usize,
    pub context: ContextWeak,
}

pub type ElementNodeArc = ConcreteNodeArc<ElementNodeStore>;

pub type AttributeNodeArc = ConcreteNodeArc<AttributeStore>;

pub type TextNodeArc = ConcreteNodeArc<TextStore>;

pub type CDataSectionNodeArc = ConcreteNodeArc<CDataSectionStore>;

pub type ProcessingInstructionNodeArc = ConcreteNodeArc<ProcessingInstructionStore>;

pub type CommentNodeArc = ConcreteNodeArc<CommentStore>;

pub type DocumentNodeArc = ConcreteNodeArc<DocumentStore>;

pub type DocumentTypeNodeArc = ConcreteNodeArc<DocumentTypeStore>;

pub type DocumentFragmentNodeArc = ConcreteNodeArc<DocumentFragmentStore>;

pub type DocumentNode = ConcreteNodeArc<DocumentStore>;

pub type TextNode = ConcreteNodeArc<TextStore>;

impl Clone for AnyNodeArc {
    /// Another handle to the same node.
    fn clone(&self) -> (copy: Self)
        ensures
            copy == *self,
    {
        AnyNodeArc { contents: self.contents.clone(), common: self.common, context: self.context }
    }
}

impl Clone for AnyNodeWeak {
    /// Another non-owning handle to the same node.
    fn clone(&self) -> (copy: Self)
        ensures
            copy == *self,
    {
        AnyNodeWeak { contents: self.contents.clone(), common: self.common, context: self.context }
    }
}

impl<T> Clone for ConcreteNodeArc<T> {
    /// Another handle to the same node.
    fn clone(&self) -> (copy: Self)
        ensures
            copy == *self,
    {
        ConcreteNodeArc { contents: share(&self.contents), common: self.common, context: self.context }
    }
}

impl<T> Clone for ConcreteNodeWeak<T> {
    /// Another non-owning handle to the same node.
    fn clone(&self) -> (copy: Self)
        ensures
            copy == *self,
    {
        ConcreteNodeWeak { contents: share(&self.contents), common: self.common, context: self.context }
    }
}

impl AnyNodeArc {
    /// The kind of the node.
    pub open spec fn node_type(self) -> NodeType {
        self.contents.node_type()
    }

    /// The non-owning form of this handle.
    pub open spec fn weak(self) -> AnyNodeWeak {
        AnyNodeWeak { contents: self.contents, common: self.common, context: self.context }
    }

    /// Whether the two handles lead to the same node.
    pub fn ptr_eq(&self, other: &AnyNodeArc) -> (same: bool)
        ensures
            same == (self.common == other.common),
    {
        self.common == other.common
    }

    /// The tag name of an element, or nothing for a node of another kind.
    pub fn tag_name(&self) -> (name: Option<String>)
        ensures
            name is Some <==> self.contents.tag() is Some,
            name matches Some(n) ==> Some(n@) == self.contents.tag(),
    {
        self.contents.tag_name()
    }

    /// The non-owning form of this handle.
    pub fn downgrade(&self) -> (weak: AnyNodeWeak)
        ensures
            weak == self.weak(),
    {
        AnyNodeWeak { contents: self.contents.clone(), common: self.common, context: self.context }
    }

    /// The handle of statically known kind `T` to the same node, where the
    /// payload is a `T`; `NodeCastFail` where it is not.
    pub open spec fn concrete<T: NodePayload>(self) -> Result<ConcreteNodeArc<T>, DomError> {
        match T::narrowed(self.contents) {
            Some(contents) => Ok(
                ConcreteNodeArc { contents, common: self.common, context: self.context },
            ),
            None => Err(DomError::NodeCastFail),
        }
    }

    /// The handle of statically known kind `T` to the same node, where the
    /// node is of that kind; `NodeCastFail` where it is of another.
    pub fn try_into_concrete<T: NodePayload>(self) -> (cast: Result<ConcreteNodeArc<T>, DomError>)
        ensures
            cast == self.concrete::<T>(),
            cast is Ok <==> self.node_type() == T::node_type(),
            cast matches Ok(node) ==> node.erased() == self,
            cast matches Err(e) ==> e == DomError::NodeCastFail,
    {
        proof {
            T::lemma_narrow_erase(self.contents);
        }
        let common: usize = self.common;
        let context = self.context;
        match T::narrow(self.contents) {
            Ok(contents) => Ok(ConcreteNodeArc { contents, common, context }),
            Err(e) => Err(e),
        }
    }
}

impl AnyNodeWeak {
    /// The strong form of this handle.
    pub open spec fn strong(self) -> AnyNodeArc {
        AnyNodeArc { contents: self.contents, common: self.common, context: self.context }
    }

    /// The non-owning handle of statically known kind `T` to the same node,
    /// where the payload is a `T`; `NodeCastFail` where it is not.
    pub open spec fn concrete<T: NodePayload>(self) -> Result<ConcreteNodeWeak<T>, DomError> {
        match T::narrowed(self.contents) {
            Some(contents) => Ok(
                ConcreteNodeWeak { contents, common: self.common, context: self.context },
            ),
            None => Err(DomError::NodeCastFail),
        }
    }

    /// The handle of statically known kind `T` to the same node, where the
    /// node is of that kind; `NodeCastFail` where it is of another.
    pub fn try_into_concrete<T: NodePayload>(self) -> (cast: Result<ConcreteNodeWeak<T>, DomError>)
        ensures
            cast == self.concrete::<T>(),
            cast is Ok <==> self.contents.node_type() == T::node_type(),
            cast matches Ok(node) ==> node.erased() == self,
            cast matches Err(e) ==> e == DomError::NodeCastFail,
    {
        proof {
            T::lemma_narrow_erase(self.contents);
        }
        let common: usize = self.common;
        let context = self.context;
        match T::narrow(self.contents) {
            Ok(contents) => Ok(ConcreteNodeWeak { contents, common, context }),
            Err(e) => Err(e),
        }
    }
}

impl<T: NodePayload> ConcreteNodeArc<T> {
    /// The type-erased handle to the same node.
    pub open spec fn erased(self) -> AnyNodeArc {
        AnyNodeArc { contents: T::erased(self.contents), common: self.common, context: self.context }
    }

    /// Whether the two handles lead to the same node.
    pub fn ptr_eq(&self, other: &ConcreteNodeArc<T>) -> (same: bool)
        ensures
            same == (self.common == other.common),
    {
        self.common == other.common
    }

    /// The type-erased handle to the same node, with the same payload under
    /// the tag of `T`.
    pub fn into_any(self) -> (any: AnyNodeArc)
        ensures
            any == self.erased(),
            any.node_type() == T::node_type(),
    {
        proof {
            T::lemma_erase_narrow(self.contents);
        }
        AnyNodeArc { contents: T::erase(self.contents), common: self.common, context: self.context }
    }

    /// Creates a node with the payload `contents` in `sandbox` and returns the
    /// handle to it. The node has no children, and the sandbox is its context.
    pub fn new(sandbox: &mut Sandbox, contents: Arc<T>) -> (node: Self)
        requires
            old(sandbox).wf(),
        ensures
            final(sandbox).wf(),
            final(sandbox)@ == old(sandbox)@.with_node(T::erased(contents)),
            node.erased() == old(sandbox)@.next_node(T::erased(contents)),
            node.contents == contents,
            final(sandbox)@.owns(node.erased()),
    {
        let created = sandbox.create_node(T::erase(share(&contents)));
        ConcreteNodeArc { contents, common: created.common, context: created.context }
    }

    /// The payload of the node.
    pub fn contents(&self) -> (payload: &T)
        ensures
            *payload == *self.contents,
    {
        &*self.contents
    }

    /// The non-owning form of this handle.
    pub fn downgrade(&self) -> (weak: ConcreteNodeWeak<T>)
        ensures
            weak.contents == self.contents,
            weak.common == self.common,
            weak.context == self.context,
    {
        ConcreteNodeWeak { contents: share(&self.contents), common: self.common, context: self.context }
    }
}

impl<T: NodePayload> ConcreteNodeWeak<T> {
    /// The type-erased, non-owning handle to the same node.
    pub open spec fn erased(self) -> AnyNodeWeak {
        AnyNodeWeak { contents: T::erased(self.contents), common: self.common, context: self.context }
    }

    /// The type-erased, non-owning handle to the same node.
    pub fn into_any(self) -> (any: AnyNodeWeak)
        ensures
            any == self.erased(),
            any.contents.node_type() == T::node_type(),
    {
        proof {
            T::lemma_erase_narrow(self.contents);
        }
        AnyNodeWeak { contents: T::erase(self.contents), common: self.common, context: self.context }
    }
}

impl<T: NodePayload> From<ConcreteNodeArc<T>> for AnyNodeArc {
    /// The type-erased handle to the same node.
    fn from(concrete: ConcreteNodeArc<T>) -> (any: AnyNodeArc) {
        concrete.into_any()
    }
}

impl<T: NodePayload> vstd::std_specs::convert::FromSpecImpl<ConcreteNodeArc<T>> for AnyNodeArc {
    open spec fn obeys_from_spec() -> bool {
        true
    }

    open spec fn from_spec(concrete: ConcreteNodeArc<T>) -> AnyNodeArc {
        concrete.erased()
    }
}

impl<T: NodePayload> TryFrom<AnyNodeArc> for ConcreteNodeArc<T> {
    type Error = DomError;

    /// The handle of kind `T` to the same node, or `NodeCastFail` where the
    /// node is of another kind.
    fn try_from(value: AnyNodeArc) -> (cast: Result<Self, DomError>) {
        value.try_into_concrete::<T>()
    }
}

impl<T: NodePayload> vstd::std_specs::convert::TryFromSpecImpl<AnyNodeArc> for ConcreteNodeArc<T> {
    open spec fn obeys_try_from_spec() -> bool {
        true
    }

    open spec fn try_from_spec(value: AnyNodeArc) -> Result<Self, DomError> {
        value.concrete::<T>()
    }
}

impl<T: NodePayload> From<ConcreteNodeWeak<T>> for AnyNodeWeak {
    /// The type-erased, non-owning handle to the same node.
    fn from(concrete: ConcreteNodeWeak<T>) -> (any: AnyNodeWeak) {
        concrete.into_any()
    }
}

impl<T: NodePayload> vstd::std_specs::convert::FromSpecImpl<ConcreteNodeWeak<T>> for AnyNodeWeak {
    open spec fn obeys_from_spec() -> bool {
        true
    }

    open spec fn from_spec(concrete: ConcreteNodeWeak<T>) -> AnyNodeWeak {
        concrete.erased()
    }
}

impl<T: NodePayload> TryFrom<AnyNodeWeak> for ConcreteNodeWeak<T> {
    type Error = DomError;

    /// The non-owning handle of kind `T` to the same node, or `NodeCastFail`
    /// where the node is of another kind.
    fn try_from(value: AnyNodeWeak) -> (cast: Result<Self, DomError>) {
        value.try_into_concrete::<T>()
    }
}

impl<T: NodePayload> vstd::std_specs::convert::TryFromSpecImpl<AnyNodeWeak> for ConcreteNodeWeak<T> {
    open spec fn obeys_try_from_spec() -> bool {
        true
    }

    open spec fn try_from_spec(value: AnyNodeWeak) -> Result<Self, DomError> {
        value.concrete::<T>()
    }
}

impl ConcreteNodeArc<DocumentStore> {
    /// Creates a text node with the character data `text`, in the sandbox of
    /// this document. The node is not yet a child of any node.
    pub fn create_text_node(&self, sandbox: &mut Sandbox, text: String) -> (node: TextNode)
        requires
            old(sandbox).wf(),
        ensures
            final(sandbox).wf(),
            node.contents.data@ == text@,
            final(sandbox)@ == old(sandbox)@.with_node(node.erased().contents),
            node.erased() == old(sandbox)@.next_node(node.erased().contents),
            final(sandbox)@.owns(node.erased()),
    {
        ConcreteNodeArc::<TextStore>::new(sandbox, Arc::new(TextStore { data: text }))
    }
}

} // verus!
