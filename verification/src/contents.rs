//! The nine kinds of node, the payload of each, and the tagged union that
//! holds a payload of any kind.

use vstd::prelude::*;
use std::sync::Arc;
use crate::element::ElementNodeStore;
use crate::error::DomError;
use crate::sandbox::ContextWeak;

verus! {

/// The kind of a node.
#[derive(Clone, Copy, Debug, PartialEq, Eq, Structural)]
pub enum NodeType {
    Element,
    Attribute,
    Text,
    CDataSection,
    ProcessingInstruction,
    Comment,
    Document,
    DocumentType,
    DocumentFragment,
}

impl NodeType {
    /// The number that stands for this kind, from 1 for an element to 9 for a
    /// document fragment.
    pub open spec fn number(self) -> int {
        match self {
            NodeType::Element => 1,
            NodeType::Attribute => 2,
            NodeType::Text => 3,
            NodeType::CDataSection => 4,
            NodeType::ProcessingInstruction => 5,
            NodeType::Comment => 6,
            NodeType::Document => 7,
            NodeType::DocumentType => 8,
            NodeType::DocumentFragment => 9,
        }
    }

    /// The number that stands for this kind.
    pub fn get_node_number(&self) -> (n: isize)
        ensures
            n == self.number(),
            1 <= n <= 9,
    {
        match self {
            NodeType::Element => 1,
            NodeType::Attribute => 2,
            NodeType::Text => 3,
            NodeType::CDataSection => 4,
            NodeType::ProcessingInstruction => 5,
            NodeType::Comment => 6,
            NodeType::Document => 7,
            NodeType::DocumentType => 8,
            NodeType::DocumentFragment => 9,
        }
    }
}

/// Payload of an attribute node.
#[derive(Clone, Debug, Default)]
pub struct AttributeStore;

/// Payload of a text node: its character data.
#[derive(Clone, Debug, Default)]
pub struct TextStore {
    pub data: String,
}

/// Payload of a CDATA section.
#[derive(Clone, Debug, Default)]
pub struct CDataSectionStore;

/// Payload of a processing instruction.
#[derive(Clone, Debug, Default)]
pub struct ProcessingInstructionStore;

/// Payload of a comment: its character data.
#[derive(Clone, Debug, Default)]
pub struct CommentStore {
    pub data: String,
}

/// Payload of a document: a non-owning reference back to what owns the
/// document, the window of its sandbox.
#[derive(Clone, Debug, Default)]
pub struct DocumentStore {
    pub default_view: ContextWeak,
}

/// Payload of a document type node.
#[derive(Clone, Debug, Default)]
pub struct DocumentTypeStore;

/// Payload of a document fragment.
#[derive(Clone, Debug, Default)]
pub struct DocumentFragmentStore;

impl TextStore {
    /// The character data of this text node.
    pub fn data(&self) -> (text: String)
        ensures
            text@ == self.data@,
    {
        self.data.clone()
    }
}

impl CommentStore {
    /// The character data of this comment.
    pub fn data(&self) -> (text: String)
        ensures
            text@ == self.data@,
    {
        self.data.clone()
    }
}

/// `Arc::clone`: the new pointer leads to the same allocation, so to the same value.
#[verifier::external_body]
pub(crate) fn share<T>(pointer: &Arc<T>) -> (shared: Arc<T>)
    ensures
        shared == *pointer,
{
    Arc::clone(pointer)
}

/// A payload of any kind: the variant is the kind.
#[derive(Debug)]
pub enum NodeContentsArc {
    Element(Arc<ElementNodeStore>),
    Attribute(Arc<AttributeStore>),
    Text(Arc<TextStore>),
    CDataSection(Arc<CDataSectionStore>),
    ProcessingInstruction(Arc<ProcessingInstructionStore>),
    Comment(Arc<CommentStore>),
    Document(Arc<DocumentStore>),
    DocumentType(Arc<DocumentTypeStore>),
    DocumentFragment(Arc<DocumentFragmentStore>),
}

impl NodeContentsArc {
    /// The kind of node that this payload belongs to.
    pub open spec fn node_type(self) -> NodeType {
        match self {
            NodeContentsArc::Element(_) => NodeType::Element,
            NodeContentsArc::Attribute(_) => NodeType::Attribute,
            NodeContentsArc::Text(_) => NodeType::Text,
            NodeContentsArc::CDataSection(_) => NodeType::CDataSection,
            NodeContentsArc::ProcessingInstruction(_) => NodeType::ProcessingInstruction,
            NodeContentsArc::Comment(_) => NodeType::Comment,
            NodeContentsArc::Document(_) => NodeType::Document,
            NodeContentsArc::DocumentType(_) => NodeType::DocumentType,
            NodeContentsArc::DocumentFragment(_) => NodeType::DocumentFragment,
        }
    }

    /// The tag name of an element payload; no other kind has one.
    pub open spec fn tag(self) -> Option<Seq<char>> {
        match self {
            NodeContentsArc::Element(store) => Some(store.tag()),
            _ => None,
        }
    }

    /// The kind of node that this payload belongs to.
    pub fn to_node_type(&self) -> (kind: NodeType)
        ensures
            kind == self.node_type(),
    {
        match self {
            NodeContentsArc::Element(_) => NodeType::Element,
            NodeContentsArc::Attribute(_) => NodeType::Attribute,
            NodeContentsArc::Text(_) => NodeType::Text,
            NodeContentsArc::CDataSection(_) => NodeType::CDataSection,
            NodeContentsArc::ProcessingInstruction(_) => NodeType::ProcessingInstruction,
            NodeContentsArc::Comment(_) => NodeType::Comment,
            NodeContentsArc::Document(_) => NodeType::Document,
            NodeContentsArc::DocumentType(_) => NodeType::DocumentType,
            NodeContentsArc::DocumentFragment(_) => NodeType::DocumentFragment,
        }
    }

    /// The tag name of an element payload, or nothing for another kind.
    pub fn tag_name(&self) -> (name: Option<String>)
        ensures
            name is Some <==> self.tag() is Some,
            name matches Some(n) ==> Some(n@) == self.tag(),
    {
        match self {
            NodeContentsArc::Element(store) => Some(store.tag_name()),
            _ => None,
        }
    }
}

impl Clone for NodeContentsArc {
    /// Another holder of the same payload.
    fn clone(&self) -> (copy: Self)
        ensures
            copy == *self,
    {
        match self {
            NodeContentsArc::Element(store) => NodeContentsArc::Element(share(store)),
            NodeContentsArc::Attribute(store) => NodeContentsArc::Attribute(share(store)),
            NodeContentsArc::Text(store) => NodeContentsArc::Text(share(store)),
            NodeContentsArc::CDataSection(store) => NodeContentsArc::CDataSection(share(store)),
            NodeContentsArc::ProcessingInstruction(store) => NodeContentsArc::ProcessingInstruction(share(store)),
            NodeContentsArc::Comment(store) => NodeContentsArc::Comment(share(store)),
            NodeContentsArc::Document(store) => NodeContentsArc::Document(share(store)),
            NodeContentsArc::DocumentType(store) => NodeContentsArc::DocumentType(share(store)),
            NodeContentsArc::DocumentFragment(store) => NodeContentsArc::DocumentFragment(share(store)),
        }
    }
}

/// A payload type: one of the nine kinds, with its place in the tagged union.
pub trait NodePayload: Sized {
    /// The kind of node that carries this payload.
    spec fn node_type() -> NodeType;

    /// This payload inside the tagged union.
    spec fn erased(contents: Arc<Self>) -> NodeContentsArc;

    /// The payload that a tagged union holds, if it is of this kind.
    spec fn narrowed(erased: NodeContentsArc) -> Option<Arc<Self>>;

    /// The kind of node that carries this payload.
    fn kind() -> (kind: NodeType)
        ensures
            kind == Self::node_type(),
    ;

    /// Puts the payload into the tagged union, under its own kind.
    fn erase(contents: Arc<Self>) -> (erased: NodeContentsArc)
        ensures
            erased == Self::erased(contents),
    ;

    /// Takes the payload out of the tagged union, where the kind is this one.
    fn narrow(erased: NodeContentsArc) -> (contents: Result<Arc<Self>, DomError>)
        ensures
            contents == match Self::narrowed(erased) {
                Some(c) => Ok::<Arc<Self>, DomError>(c),
                None => Err::<Arc<Self>, DomError>(DomError::NodeCastFail),
            },
    ;

    /// A payload put into the union has this kind and comes out unchanged.
    proof fn lemma_erase_narrow(contents: Arc<Self>)
        ensures
            Self::erased(contents).node_type() == Self::node_type(),
            Self::narrowed(Self::erased(contents)) == Some(contents),
    ;

    /// The union gives a payload of this kind exactly when its tag is this
    /// kind, and that payload put back is the same union value.
    proof fn lemma_narrow_erase(erased: NodeContentsArc)
        ensures
            Self::narrowed(erased) is Some <==> erased.node_type() == Self::node_type(),
            Self::narrowed(erased) matches Some(c) ==> Self::erased(c) == erased,
    ;
}

impl NodePayload for ElementNodeStore {
    open spec fn node_type() -> NodeType {
        NodeType::Element
    }

    open spec fn erased(contents: Arc<Self>) -> NodeContentsArc {
        NodeContentsArc::Element(contents)
    }

    open spec fn narrowed(erased: NodeContentsArc) -> Option<Arc<Self>> {
        match erased {
            NodeContentsArc::Element(contents) => Some(contents),
            _ => None,
        }
    }

    fn kind() -> (kind: NodeType) {
        NodeType::Element
    }

    fn erase(contents: Arc<Self>) -> (erased: NodeContentsArc) {
        NodeContentsArc::Element(contents)
    }

    fn narrow(erased: NodeContentsArc) -> (contents: Result<Arc<Self>, DomError>) {
        match erased {
            NodeContentsArc::Element(contents) => Ok(contents),
            _ => Err(DomError::NodeCastFail),
        }
    }

    proof fn lemma_erase_narrow(contents: Arc<Self>) {
    }

    proof fn lemma_narrow_erase(erased: NodeContentsArc) {
    }
}

impl NodePayload for AttributeStore {
    open spec fn node_type() -> NodeType {
        NodeType::Attribute
    }

    open spec fn erased(contents: Arc<Self>) -> NodeContentsArc {
        NodeContentsArc::Attribute(contents)
    }

    open spec fn narrowed(erased: NodeContentsArc) -> Option<Arc<Self>> {
        match erased {
            NodeContentsArc::Attribute(contents) => Some(contents),
            _ => None,
        }
    }

    fn kind() -> (kind: NodeType) {
        NodeType::Attribute
    }

    fn erase(contents: Arc<Self>) -> (erased: NodeContentsArc) {
        NodeContentsArc::Attribute(contents)
    }

    fn narrow(erased: NodeContentsArc) -> (contents: Result<Arc<Self>, DomError>) {
        match erased {
            NodeContentsArc::Attribute(contents) => Ok(contents),
            _ => Err(DomError::NodeCastFail),
        }
    }

    proof fn lemma_erase_narrow(contents: Arc<Self>) {
    }

    proof fn lemma_narrow_erase(erased: NodeContentsArc) {
    }
}

impl NodePayload for TextStore {
    open spec fn node_type() -> NodeType {
        NodeType::Text
    }

    open spec fn erased(contents: Arc<Self>) -> NodeContentsArc {
        NodeContentsArc::Text(contents)
    }

    open spec fn narrowed(erased: NodeContentsArc) -> Option<Arc<Self>> {
        match erased {
            NodeContentsArc::Text(contents) => Some(contents),
            _ => None,
        }
    }

    fn kind() -> (kind: NodeType) {
        NodeType::Text
    }

    fn erase(contents: Arc<Self>) -> (erased: NodeContentsArc) {
        NodeContentsArc::Text(contents)
    }

    fn narrow(erased: NodeContentsArc) -> (contents: Result<Arc<Self>, DomError>) {
        match erased {
            NodeContentsArc::Text(contents) => Ok(contents),
            _ => Err(DomError::NodeCastFail),
        }
    }

    proof fn lemma_erase_narrow(contents: Arc<Self>) {
    }

    proof fn lemma_narrow_erase(erased: NodeContentsArc) {
    }
}

impl NodePayload for CDataSectionStore {
    open spec fn node_type() -> NodeType {
        NodeType::CDataSection
    }

    open spec fn erased(contents: Arc<Self>) -> NodeContentsArc {
        NodeContentsArc::CDataSection(contents)
    }

    open spec fn narrowed(erased: NodeContentsArc) -> Option<Arc<Self>> {
        match erased {
            NodeContentsArc::CDataSection(contents) => Some(contents),
            _ => None,
        }
    }

    fn kind() -> (kind: NodeType) {
        NodeType::CDataSection
    }

    fn erase(contents: Arc<Self>) -> (erased: NodeContentsArc) {
        NodeContentsArc::CDataSection(contents)
    }

    fn narrow(erased: NodeContentsArc) -> (contents: Result<Arc<Self>, DomError>) {
        match erased {
            NodeContentsArc::CDataSection(contents) => Ok(contents),
            _ => Err(DomError::NodeCastFail),
        }
    }

    proof fn lemma_erase_narrow(contents: Arc<Self>) {
    }

    proof fn lemma_narrow_erase(erased: NodeContentsArc) {
    }
}

impl NodePayload for ProcessingInstructionStore {
    open spec fn node_type() -> NodeType {
        NodeType::ProcessingInstruction
    }

    open spec fn erased(contents: Arc<Self>) -> NodeContentsArc {
        NodeContentsArc::ProcessingInstruction(contents)
    }

    open spec fn narrowed(erased: NodeContentsArc) -> Option<Arc<Self>> {
        match erased {
            NodeContentsArc::ProcessingInstruction(contents) => Some(contents),
            _ => None,
        }
    }

    fn kind() -> (kind: NodeType) {
        NodeType::ProcessingInstruction
    }

    fn erase(contents: Arc<Self>) -> (erased: NodeContentsArc) {
        NodeContentsArc::ProcessingInstruction(contents)
    }

    fn narrow(erased: NodeContentsArc) -> (contents: Result<Arc<Self>, DomError>) {
        match erased {
            NodeContentsArc::ProcessingInstruction(contents) => Ok(contents),
            _ => Err(DomError::NodeCastFail),
        }
    }

    proof fn lemma_erase_narrow(contents: Arc<Self>) {
    }

    proof fn lemma_narrow_erase(erased: NodeContentsArc) {
    }
}

impl NodePayload for CommentStore {
    open spec fn node_type() -> NodeType {
        NodeType::Comment
    }

    open spec fn erased(contents: Arc<Self>) -> NodeContentsArc {
        NodeContentsArc::Comment(contents)
    }

    open spec fn narrowed(erased: NodeContentsArc) -> Option<Arc<Self>> {
        match erased {
            NodeContentsArc::Comment(contents) => Some(contents),
            _ => None,
        }
    }

    fn kind() -> (kind: NodeType) {
        NodeType::Comment
    }

    fn erase(contents: Arc<Self>) -> (erased: NodeContentsArc) {
        NodeContentsArc::Comment(contents)
    }

    fn narrow(erased: NodeContentsArc) -> (contents: Result<Arc<Self>, DomError>) {
        match erased {
            NodeContentsArc::Comment(contents) => Ok(contents),
            _ => Err(DomError::NodeCastFail),
        }
    }

    proof fn lemma_erase_narrow(contents: Arc<Self>) {
    }

    proof fn lemma_narrow_erase(erased: NodeContentsArc) {
    }
}

impl NodePayload for DocumentStore {
    open spec fn node_type() -> NodeType {
        NodeType::Document
    }

    open spec fn erased(contents: Arc<Self>) -> NodeContentsArc {
        NodeContentsArc::Document(contents)
    }

    open spec fn narrowed(erased: NodeContentsArc) -> Option<Arc<Self>> {
        match erased {
            NodeContentsArc::Document(contents) => Some(contents),
            _ => None,
        }
    }

    fn kind() -> (kind: NodeType) {
        NodeType::Document
    }

    fn erase(contents: Arc<Self>) -> (erased: NodeContentsArc) {
        NodeContentsArc::Document(contents)
    }

    fn narrow(erased: NodeContentsArc) -> (contents: Result<Arc<Self>, DomError>) {
        match erased {
            NodeContentsArc::Document(contents) => Ok(contents),
            _ => Err(DomError::NodeCastFail),
        }
    }

    proof fn lemma_erase_narrow(contents: Arc<Self>) {
    }

    proof fn lemma_narrow_erase(erased: NodeContentsArc) {
    }
}

impl NodePayload for DocumentTypeStore {
    open spec fn node_type() -> NodeType {
        NodeType::DocumentType
    }

    open spec fn erased(contents: Arc<Self>) -> NodeContentsArc {
        NodeContentsArc::DocumentType(contents)
    }

    open spec fn narrowed(erased: NodeContentsArc) -> Option<Arc<Self>> {
        match erased {
            NodeContentsArc::DocumentType(contents) => Some(contents),
            _ => None,
        }
    }

    fn kind() -> (kind: NodeType) {
        NodeType::DocumentType
    }

    fn erase(contents: Arc<Self>) -> (erased: NodeContentsArc) {
        NodeContentsArc::DocumentType(contents)
    }

    fn narrow(erased: NodeContentsArc) -> (contents: Result<Arc<Self>, DomError>) {
        match erased {
            NodeContentsArc::DocumentType(contents) => Ok(contents),
            _ => Err(DomError::NodeCastFail),
        }
    }

    proof fn lemma_erase_narrow(contents: Arc<Self>) {
    }

    proof fn lemma_narrow_erase(erased: NodeContentsArc) {
    }
}

impl NodePayload for DocumentFragmentStore {
    open spec fn node_type() -> NodeType {
        NodeType::DocumentFragment
    }

    open spec fn erased(contents: Arc<Self>) -> NodeContentsArc {
        NodeContentsArc::DocumentFragment(contents)
    }

    open spec fn narrowed(erased: NodeContentsArc) -> Option<Arc<Self>> {
        match erased {
            NodeContentsArc::DocumentFragment(contents) => Some(contents),
            _ => None,
        }
    }

    fn kind() -> (kind: NodeType) {
        NodeType::DocumentFragment
    }

    fn erase(contents: Arc<Self>) -> (erased: NodeContentsArc) {
        NodeContentsArc::DocumentFragment(contents)
    }

    fn narrow(erased: NodeContentsArc) -> (contents: Result<Arc<Self>, DomError>) {
        match erased {
            NodeContentsArc::DocumentFragment(contents) => Ok(contents),
            _ => Err(DomError::NodeCastFail),
        }
    }

    proof fn lemma_erase_narrow(contents: Arc<Self>) {
    }

    proof fn lemma_narrow_erase(erased: NodeContentsArc) {
    }
}

} // verus!
