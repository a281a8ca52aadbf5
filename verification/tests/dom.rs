use std::convert::TryInto;
use std::sync::Arc;

use rdom::contents::{
    AttributeStore, CDataSectionStore, CommentStore, DocumentFragmentStore, DocumentTypeStore,
    NodePayload, NodeType, ProcessingInstructionStore, TextStore,
};
use rdom::element::{
    ElementNodeStore, HtmlBodyStore, HtmlButtonStore, HtmlElementStore, HtmlHtmlStore,
};
use rdom::error::DomError;
use rdom::node::{
    AnyNodeArc, AttributeNodeArc, CDataSectionNodeArc, CommentNodeArc, ConcreteNodeArc,
    DocumentFragmentNodeArc, DocumentNode, DocumentTypeNodeArc, ElementNodeArc,
    ProcessingInstructionNodeArc, TextNodeArc,
};
use rdom::node_behavior::NodeBehavior;
use rdom::parent_node::ParentNodeBehavior;
use rdom::query_selector::query_selector as query_below;
use rdom::sandbox::Sandbox;
use rdom::sandbox_member::SandboxMemberBehavior;
use rdom::selector::Selector;
use rdom::template::{AttributeTemplate, HtmlBodyTemplate, HtmlButtonTemplate, HtmlHtmlTemplate};

fn check_node_creation<T: NodePayload>(node_type: NodeType, storage: Arc<T>) -> (Sandbox, DocumentNode) {
    let mut sbox = Sandbox::new(1);
    let doc = sbox.document();

    let node = ConcreteNodeArc::<T>::new(&mut sbox, storage);
    doc.append_child(&mut sbox, node.into());
    assert_eq!(doc.child_nodes().length(&sbox), 1);
    assert_eq!(
        doc.first_child(&sbox).unwrap().get_node_type(),
        node_type.get_node_number()
    );

    (sbox, doc)
}

#[test]
fn it_works() {
    let mut sbox = Sandbox::new(1);
    let doc = sbox.document();
    let document_element: AnyNodeArc = doc.build(&mut sbox, HtmlHtmlTemplate).unwrap().into();
    let _text = doc.create_text_node(&mut sbox, "Hello, world!".to_string());
    doc.append_child(&mut sbox, document_element);
    assert_eq!(doc.child_nodes().length(&sbox), 1);
}

#[test]
fn tests_it_works() {
    let mut sbox = Sandbox::new(1);
    let doc = sbox.document();
    let document_element: ElementNodeArc = ConcreteNodeArc::new(
        &mut sbox,
        Arc::new(ElementNodeStore::HtmlElement(HtmlElementStore::HtmlHtml(HtmlHtmlStore))),
    );
    let _text = doc.create_text_node(&mut sbox, "Hello, world!".to_string());
    doc.append_child(&mut sbox, document_element.into());
    assert_eq!(doc.child_nodes().length(&sbox), 1);
}

#[test]
fn test_element_node_m() {
    let _elem = check_node_creation::<ElementNodeStore>(
        NodeType::Element,
        Arc::new(ElementNodeStore::HtmlElement(HtmlElementStore::HtmlButton(HtmlButtonStore))),
    );
}

#[test]
fn test_attr_node() {
    let storage: Arc<AttributeStore> = Default::default();
    let _doc = check_node_creation(NodeType::Attribute, storage);
}

#[test]
fn test_text_node() {
    let (sbox, text) = check_node_creation(
        NodeType::Text,
        Arc::new(TextStore {
            data: "test".to_owned(),
        }),
    );

    let node = text.first_child(&sbox).unwrap();
    let node: Result<TextNodeArc, DomError> = node.try_into();
    match node {
        Ok(node) => {
            assert_eq!(node.contents.data(), "test".to_owned());
        }
        _ => {
            panic!("Could not cast node");
        }
    }
}

#[test]
fn test_c_data_section_node_node() {
    let storage: Arc<CDataSectionStore> = Default::default();
    let _cds = check_node_creation(NodeType::CDataSection, storage);
}

#[test]
fn test_processing_instruction_node() {
    let storage: Arc<ProcessingInstructionStore> = Default::default();
    let _pi = check_node_creation(NodeType::ProcessingInstruction, storage);
}

#[test]
fn test_comment_node() {
    let _com = check_node_creation(
        NodeType::Comment,
        Arc::new(CommentStore {
            data: "test".to_owned(),
        }),
    );
}

#[test]
fn test_document_type_node() {
    let storage: Arc<DocumentTypeStore> = Default::default();
    let _dt = check_node_creation(NodeType::DocumentType, storage);
}

#[test]
fn test_document_fragment_node() {
    let storage: Arc<DocumentFragmentStore> = Default::default();
    let _frag = check_node_creation(NodeType::DocumentFragment, storage);
}

#[test]
fn can_build_node() {
    let mut sbox = Sandbox::new(1);

    let node = sbox
        .build_node(AttributeTemplate(Default::default()))
        .unwrap();
    let node: ConcreteNodeArc<AttributeStore> = node;

    assert!(node.get_context() == sbox.downgrade());
}

#[test]
fn tag_name() {
    let button = ElementNodeStore::HtmlElement(HtmlElementStore::HtmlButton(HtmlButtonStore));
    let body = ElementNodeStore::HtmlElement(HtmlElementStore::HtmlBody(HtmlBodyStore));
    assert_eq!(button.tag_name(), "BUTTON");
    assert_eq!(body.tag_name(), "BODY");
}

#[test]
fn selector() {
    let mut sbox = Sandbox::new(1);

    let button = sbox.build_node(HtmlButtonTemplate).unwrap();
    let body = sbox.build_node(HtmlBodyTemplate).unwrap();

    let button_any: AnyNodeArc = button.clone().into();

    let selector = Selector::from_str("button").unwrap();

    assert!(selector.filter_selected_node(button_any).is_ok());
    assert!(selector.is_selected_element(button));
    assert!(!selector.is_selected_element(body));
}

#[test]
fn query_selector() {
    let mut sbox = Sandbox::new(1);

    let button: ElementNodeArc = sbox.build_node(HtmlButtonTemplate).unwrap();
    let body: ElementNodeArc = sbox.build_node(HtmlBodyTemplate).unwrap();

    let buttonselector = Selector::from_str("BUTTON").unwrap();
    let bodyselector = Selector::from_str("BODY").unwrap();

    let doc = sbox.document();

    doc.append_child(&mut sbox, button.clone().into());
    doc.append_child(&mut sbox, body.clone().into());

    let qbody = doc.query_selector(&sbox, &bodyselector).unwrap().unwrap();
    let qbutton = doc.query_selector(&sbox, &buttonselector).unwrap().unwrap();

    assert!(qbody.ptr_eq(&body));
    assert!(qbutton.ptr_eq(&button));
}

#[test]
fn query_selector_child() {
    let mut sbox = Sandbox::new(1);

    let button: ElementNodeArc = sbox.build_node(HtmlButtonTemplate).unwrap();
    let body: ElementNodeArc = sbox.build_node(HtmlBodyTemplate).unwrap();

    let buttonselector = Selector::from_str("BUTTON").unwrap();
    let bodyselector = Selector::from_str("BODY").unwrap();

    let doc = sbox.document();

    doc.append_child(&mut sbox, body.clone().into());
    body.append_child(&mut sbox, button.clone().into());

    let qbody = doc.query_selector(&sbox, &bodyselector).unwrap().unwrap();
    let qbutton = doc.query_selector(&sbox, &buttonselector).unwrap().unwrap();

    assert!(qbody.ptr_eq(&body));
    assert!(qbutton.ptr_eq(&button));
}

#[test]
fn tests_query_selector() {
    let mut sbox = Sandbox::new(1);
    let doc = sbox.document();

    let html: ElementNodeArc = ConcreteNodeArc::new(
        &mut sbox,
        Arc::new(ElementNodeStore::HtmlElement(HtmlElementStore::HtmlHtml(HtmlHtmlStore))),
    );
    let body: ElementNodeArc = ConcreteNodeArc::new(
        &mut sbox,
        Arc::new(ElementNodeStore::HtmlElement(HtmlElementStore::HtmlBody(HtmlBodyStore))),
    );

    doc.append_child(&mut sbox, html.clone().into());
    html.append_child(&mut sbox, body.clone().into());

    let root: AnyNodeArc = doc.clone().into();
    let qbody: ElementNodeArc = query_below(&sbox, &root, "body")
        .unwrap()
        .unwrap()
        .try_into()
        .unwrap();

    assert!(qbody.ptr_eq(&body));
}

#[test]
fn cast_to_another_kind_fails() {
    let (sbox, doc) = check_node_creation(
        NodeType::Text,
        Arc::new(TextStore {
            data: "test".to_owned(),
        }),
    );
    let node = doc.first_child(&sbox).unwrap();
    let as_comment: Result<CommentNodeArc, DomError> = node.clone().try_into();
    assert_eq!(as_comment.err(), Some(DomError::NodeCastFail));
    let as_text: Result<TextNodeArc, DomError> = node.clone().try_into();
    let text = as_text.unwrap();
    assert_eq!(text.contents().data(), "test");
    let back: AnyNodeArc = text.into();
    assert!(back.ptr_eq(&node));
    assert_eq!(back.get_node_type(), 3);
}

#[test]
fn every_kind_has_its_number() {
    assert_eq!(NodeType::Element.get_node_number(), 1);
    assert_eq!(NodeType::Attribute.get_node_number(), 2);
    assert_eq!(NodeType::Text.get_node_number(), 3);
    assert_eq!(NodeType::CDataSection.get_node_number(), 4);
    assert_eq!(NodeType::ProcessingInstruction.get_node_number(), 5);
    assert_eq!(NodeType::Comment.get_node_number(), 6);
    assert_eq!(NodeType::Document.get_node_number(), 7);
    assert_eq!(NodeType::DocumentType.get_node_number(), 8);
    assert_eq!(NodeType::DocumentFragment.get_node_number(), 9);
    let sbox = Sandbox::new(4);
    assert_eq!(sbox.document().get_node_type(), 7);
}

#[test]
fn cast_matches_only_the_own_kind() {
    let mut sbox = Sandbox::new(1);
    let attr: AttributeNodeArc = ConcreteNodeArc::new(&mut sbox, Default::default());
    let any: AnyNodeArc = attr.into();
    assert!(any.clone().try_into_concrete::<AttributeStore>().is_ok());
    assert_eq!(
        any.clone().try_into_concrete::<ElementNodeStore>().err(),
        Some(DomError::NodeCastFail)
    );
    let r: Result<CDataSectionNodeArc, DomError> = any.clone().try_into();
    assert_eq!(r.err(), Some(DomError::NodeCastFail));
    let r: Result<ProcessingInstructionNodeArc, DomError> = any.clone().try_into();
    assert_eq!(r.err(), Some(DomError::NodeCastFail));
    let r: Result<DocumentTypeNodeArc, DomError> = any.clone().try_into();
    assert_eq!(r.err(), Some(DomError::NodeCastFail));
    let r: Result<DocumentFragmentNodeArc, DomError> = any.clone().try_into();
    assert_eq!(r.err(), Some(DomError::NodeCastFail));
    let r: Result<DocumentNode, DomError> = any.try_into();
    assert_eq!(r.err(), Some(DomError::NodeCastFail));
}
