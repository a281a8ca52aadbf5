use std::sync::Arc;

use rdom::contents::{CommentStore, TextStore};
use rdom::error::DomError;
use rdom::node::{AnyNodeArc, ConcreteNodeArc, ElementNodeArc, TextNodeArc};
use rdom::node_behavior::NodeBehavior;
use rdom::node_list::NodeList;
use rdom::parent_node::{ParentNodeBehavior, ParentNodeBehaviorStorage};
use rdom::query_selector::{is_selected, query_selector as query_below, query_selector_rec};
use rdom::sandbox::Sandbox;
use rdom::sandbox_member::{SandboxMemberBehavior, SandboxMemberBehaviorStorage};
use rdom::selector::Selector;
use rdom::template::{Builder, HtmlBodyTemplate, HtmlButtonTemplate};
use rdom::wrapped::{AnyRawNode, AnyWrappedNode, Node};

#[test]
fn append_child_adds_one_and_is_last() {
    let mut sbox = Sandbox::new(7);
    let doc = sbox.document();
    let builder = Builder::new(sbox.downgrade());
    let body = builder.build_body(&mut sbox);
    let button = builder.build_button(&mut sbox);
    assert!(doc.first_child(&sbox).is_none());
    assert!(doc.last_child(&sbox).is_none());
    let before = doc.child_nodes().length(&sbox);
    doc.append_child(&mut sbox, body.clone().into());
    assert_eq!(doc.child_nodes().length(&sbox), before + 1);
    assert!(doc.last_child(&sbox).unwrap().ptr_eq(&body.clone().into()));
    doc.append_child(&mut sbox, button.clone().into());
    assert_eq!(doc.child_nodes().length(&sbox), before + 2);
    assert!(doc.last_child(&sbox).unwrap().ptr_eq(&button.clone().into()));
    assert!(doc.first_child(&sbox).unwrap().ptr_eq(&body.into()));
}

#[test]
fn live_list_sees_later_children() {
    let mut sbox = Sandbox::new(7);
    let builder = Builder::new(sbox.downgrade());
    let body = builder.build_body(&mut sbox);
    let list = body.child_nodes();
    assert_eq!(list.length(&sbox), 0);
    assert!(list.item(&sbox, 0).is_none());
    let first = builder.build_button(&mut sbox);
    let second = builder.build_unknown(&mut sbox, "SPAN".to_string());
    body.append_child(&mut sbox, first.clone().into());
    body.append_child(&mut sbox, second.clone().into());
    assert_eq!(list.length(&sbox), 2);
    assert!(list.item(&sbox, 0).unwrap().ptr_eq(&first.into()));
    assert!(list.get(&sbox, 1).unwrap().ptr_eq(&second.into()));
    assert!(list.item(&sbox, 2).is_none());
}

#[test]
fn static_list_stays_as_it_was_made() {
    let mut sbox = Sandbox::new(7);
    let builder = Builder::new(sbox.downgrade());
    let body = builder.build_body(&mut sbox);
    let first = builder.build_button(&mut sbox);
    body.append_child(&mut sbox, first.clone().into());
    let snapshot: Vec<AnyNodeArc> = vec![body.first_child(&sbox).unwrap()];
    let list = NodeList::new_static(sbox.downgrade(), snapshot);
    assert_eq!(list.length(&sbox), 1);
    let second = builder.build_button(&mut sbox);
    body.append_child(&mut sbox, second.into());
    assert_eq!(list.length(&sbox), 1);
    assert!(list.item(&sbox, 0).unwrap().ptr_eq(&first.into()));
    assert!(list.item(&sbox, 1).is_none());
    assert_eq!(body.child_nodes().length(&sbox), 2);
}

#[test]
fn live_list_of_a_foreign_node_is_empty() {
    let mut big = Sandbox::new(1);
    let small = Sandbox::new(2);
    let builder = Builder::new(big.downgrade());
    let body = builder.build_body(&mut big);
    let button = builder.build_button(&mut big);
    body.append_child(&mut big, button.into());
    let list = body.child_nodes();
    assert_eq!(list.length(&big), 1);
    assert_eq!(list.length(&small), 0);
    assert!(list.item(&small, 0).is_none());

    // another sandbox with a node at the same place, which has a child
    let mut other = Sandbox::new(3);
    let there = Builder::new(other.downgrade());
    let other_body = there.build_body(&mut other);
    let other_button = there.build_button(&mut other);
    other_body.append_child(&mut other, other_button.into());
    assert_eq!(other_body.common, body.common);
    assert_eq!(list.length(&other), 0);
    assert!(list.get(&other, 0).is_none());
    assert!(!other.holds(&body.downgrade().into()));
    assert!(big.holds(&body.downgrade().into()));
    assert_eq!(
        body.child_element_count(&other),
        Err(DomError::SandboxDropped)
    );
}

#[test]
fn contains_follows_the_children() {
    let mut sbox = Sandbox::new(5);
    let doc = sbox.document();
    let builder = Builder::new(sbox.downgrade());
    let html = builder.build_html(&mut sbox);
    let body = builder.build_body(&mut sbox);
    let button = builder.build_button(&mut sbox);
    let loose = builder.build_button(&mut sbox);
    doc.append_child(&mut sbox, html.clone().into());
    html.append_child(&mut sbox, body.clone().into());
    body.append_child(&mut sbox, button.clone().into());
    assert!(sbox.contains(doc.common, doc.common));
    assert!(sbox.contains(doc.common, button.common));
    assert!(sbox.contains(html.common, button.common));
    assert!(sbox.contains(body.common, button.common));
    assert!(!sbox.contains(button.common, body.common));
    assert!(!sbox.contains(body.common, html.common));
    assert!(!sbox.contains(doc.common, loose.common));
    assert!(!sbox.contains(loose.common, doc.common));
    // a subtree that was grown apart can be appended afterwards
    let late = builder.build_button(&mut sbox);
    loose.append_child(&mut sbox, late.clone().into());
    assert!(!sbox.contains(loose.common, button.common));
    button.append_child(&mut sbox, loose.clone().into());
    assert!(sbox.contains(doc.common, late.common));
    assert_eq!(sbox.node_count(), 6);
}

#[test]
fn teardown_makes_context_operations_fail() {
    let mut sbox = Sandbox::new(9);
    let doc = sbox.document();
    let body = sbox.build_node(HtmlBodyTemplate).unwrap();
    doc.append_child(&mut sbox, body.clone().into());
    let context = sbox.downgrade();
    assert!(sbox.resolves(&context));
    assert!(sbox.is_live());
    assert_eq!(doc.child_element_count(&sbox), Ok(1));

    sbox.teardown();

    assert!(!sbox.is_live());
    assert!(!sbox.resolves(&context));
    assert!(!sbox.resolves(&body.get_context()));
    assert_eq!(doc.child_element_count(&sbox), Err(DomError::SandboxDropped));
    let selector = Selector::from_str("body").unwrap();
    assert_eq!(
        doc.query_selector(&sbox, &selector).err(),
        Some(DomError::SandboxDropped)
    );
    assert_eq!(
        doc.build(&mut sbox, HtmlButtonTemplate).err(),
        Some(DomError::SandboxDropped)
    );
    assert_eq!(
        sbox.build_node(HtmlButtonTemplate).err(),
        Some(DomError::SandboxDropped)
    );
    assert_eq!(sbox.node_count(), 2);
    // the graph itself can still be read and grown
    assert_eq!(doc.child_nodes().length(&sbox), 1);
    let text = doc.create_text_node(&mut sbox, "late".to_string());
    doc.append_child(&mut sbox, text.into());
    assert_eq!(doc.child_nodes().length(&sbox), 2);
}

#[test]
fn another_sandbox_does_not_resolve() {
    let one = Sandbox::new(1);
    let two = Sandbox::new(2);
    assert!(one.resolves(&one.downgrade()));
    assert!(!one.resolves(&two.downgrade()));
    let member = SandboxMemberBehaviorStorage::new(two.downgrade());
    assert!(member.get_context() == two.downgrade());
    let mut one = one;
    assert_eq!(
        member.build(&mut one, HtmlBodyTemplate).err(),
        Some(DomError::SandboxDropped)
    );
    assert_eq!(one.node_count(), 1);
}

#[test]
fn child_element_count_counts_elements_only() {
    let mut sbox = Sandbox::new(3);
    let doc = sbox.document();
    assert_eq!(doc.child_element_count(&sbox), Ok(0));
    let text = doc.create_text_node(&mut sbox, "a".to_string());
    let body = sbox.build_node(HtmlBodyTemplate).unwrap();
    let comment: ConcreteNodeArc<CommentStore> = ConcreteNodeArc::new(
        &mut sbox,
        Arc::new(CommentStore {
            data: "c".to_string(),
        }),
    );
    let button = sbox.build_node(HtmlButtonTemplate).unwrap();
    doc.append_child(&mut sbox, text.into());
    doc.append_child(&mut sbox, body.clone().into());
    doc.append_child(&mut sbox, comment.into());
    doc.append_child(&mut sbox, button.into());
    assert_eq!(doc.child_element_count(&sbox), Ok(2));
    assert_eq!(body.child_element_count(&sbox), Ok(0));
    let storage = ParentNodeBehaviorStorage::new(doc.downgrade().into());
    assert_eq!(storage.child_element_count(&sbox), Ok(2));
}

#[test]
fn search_is_in_document_order_at_any_depth() {
    let mut sbox = Sandbox::new(3);
    let doc = sbox.document();
    let builder = Builder::new(sbox.downgrade());
    let html = builder.build_html(&mut sbox);
    let body = builder.build_body(&mut sbox);
    let outer = builder.build_unknown(&mut sbox, "DIV".to_string());
    let deep = builder.build_button(&mut sbox);
    let late = builder.build_button(&mut sbox);
    doc.append_child(&mut sbox, html.clone().into());
    html.append_child(&mut sbox, body.clone().into());
    body.append_child(&mut sbox, outer.clone().into());
    outer.append_child(&mut sbox, deep.clone().into());
    body.append_child(&mut sbox, late.clone().into());
    let last = builder.build_button(&mut sbox);
    html.append_child(&mut sbox, last.into());

    let button = Selector::from_str("button").unwrap();
    let found = doc.query_selector(&sbox, &button).unwrap().unwrap();
    assert!(found.ptr_eq(&deep));
    let found = query_selector_rec(&sbox, 0, &button).unwrap();
    assert!(found.ptr_eq(&deep.clone().into()));
    let div = Selector::from_str("div").unwrap();
    assert!(doc.query_selector(&sbox, &div).unwrap().unwrap().ptr_eq(&outer));
    let none = Selector::from_str("table").unwrap();
    assert!(doc.query_selector(&sbox, &none).unwrap().is_none());
    assert!(query_selector_rec(&sbox, 0, &none).is_none());
}

#[test]
fn root_matches_itself_only_through_the_capability() {
    let mut sbox = Sandbox::new(3);
    let builder = Builder::new(sbox.downgrade());
    let body = builder.build_body(&mut sbox);
    let inner = builder.build_body(&mut sbox);
    body.append_child(&mut sbox, inner.clone().into());
    let selector = Selector::from_str("body").unwrap();
    // the capability looks at the node itself first
    let found = body.query_selector(&sbox, &selector).unwrap().unwrap();
    assert!(found.ptr_eq(&body));
    // the plain search never answers with its root
    let root: AnyNodeArc = body.clone().into();
    let found = query_below(&sbox, &root, "body").unwrap().unwrap();
    assert!(found.ptr_eq(&inner.clone().into()));
    // a root that does not match
    let button = Selector::from_str("button").unwrap();
    assert!(body.query_selector(&sbox, &button).unwrap().is_none());
    assert!(query_below(&sbox, &root, "button").unwrap().is_none());
    let leaf: AnyNodeArc = inner.into();
    assert!(query_below(&sbox, &leaf, "body").unwrap().is_none());
}

#[test]
fn search_refuses_a_bad_selector() {
    let sbox = Sandbox::new(3);
    let root: AnyNodeArc = sbox.document().into();
    assert_eq!(
        query_below(&sbox, &root, "btn!").err(),
        Some(DomError::InvalidQuerySelector)
    );
    assert_eq!(
        query_below(&sbox, &root, "a b").err(),
        Some(DomError::InvalidQuerySelector)
    );
}

#[test]
fn is_selected_needs_an_element_with_that_tag() {
    let mut sbox = Sandbox::new(3);
    let button: AnyNodeArc = sbox.build_node(HtmlButtonTemplate).unwrap().into();
    let body: AnyNodeArc = sbox.build_node(HtmlBodyTemplate).unwrap().into();
    let doc = sbox.document();
    let text: AnyNodeArc = doc.create_text_node(&mut sbox, "BUTTON".to_string()).into();
    let selector = Selector::from_str("Button").unwrap();
    assert!(is_selected(&button, &selector));
    assert!(!is_selected(&body, &selector));
    assert!(!is_selected(&text, &selector));
    assert!(selector.matches_selected_node(&button).unwrap().ptr_eq(
        &button.clone().try_into_concrete().unwrap()
    ));
    assert!(selector.matches_selected_node(&body).is_none());
    assert!(selector.filter_selected_node(body.clone()).unwrap_err().ptr_eq(&body));
    assert_eq!(button.tag_name(), Some("BUTTON".to_string()));
    assert_eq!(text.tag_name(), None);
}

#[test]
fn clone_node_copies_the_payload_and_no_children() {
    let mut sbox = Sandbox::new(3);
    let doc = sbox.document();
    let text: TextNodeArc = doc.create_text_node(&mut sbox, "test".to_string());
    let body: ElementNodeArc = sbox.build_node(HtmlBodyTemplate).unwrap();
    body.append_child(&mut sbox, text.clone().into());
    let copy = NodeBehavior::clone_node(&body, &mut sbox);
    assert!(!copy.ptr_eq(&body.clone().into()));
    assert_eq!(copy.get_node_type(), 1);
    assert_eq!(copy.tag_name(), Some("BODY".to_string()));
    assert!(copy.first_child(&sbox).is_none());
    assert_eq!(copy.child_nodes().length(&sbox), 0);
    assert_eq!(body.child_nodes().length(&sbox), 1);
    assert!(SandboxMemberBehavior::get_context(&copy) == body.get_context());
    let text_copy = NodeBehavior::clone_node(&text, &mut sbox);
    let text_copy: TextNodeArc = text_copy.try_into_concrete().unwrap();
    assert_eq!(text_copy.contents().data(), "test");
    assert!(!text_copy.ptr_eq(&text));
    let shared = text.clone();
    assert!(shared.ptr_eq(&text));
    assert_eq!(shared.contents().data(), "test");
    assert!(Arc::ptr_eq(&shared.contents, &text.contents));
}

#[test]
fn wrapped_node_keeps_the_context() {
    let mut sbox = Sandbox::new(11);
    let body: AnyNodeArc = sbox.build_node(HtmlBodyTemplate).unwrap().into();
    let node: Node = body.clone().into();
    assert!(AnyWrappedNode::get_context(&node) == sbox.downgrade());
    assert!(AnyRawNode::get_context(&body) == sbox.downgrade());
    let copy = AnyRawNode::clone_node(&body, &mut sbox);
    assert_eq!(copy.tag_name(), Some("BODY".to_string()));
    assert!(!copy.ptr_eq(&body));
}

#[test]
fn weak_handles_cast_like_strong_ones() {
    let mut sbox = Sandbox::new(11);
    let doc = sbox.document();
    let text = doc.create_text_node(&mut sbox, "w".to_string());
    let weak = text.downgrade();
    let any = weak.into_any();
    assert_eq!(any.common, text.common);
    assert_eq!(
        any.clone().try_into_concrete::<CommentStore>().err(),
        Some(DomError::NodeCastFail)
    );
    let back = any.try_into_concrete::<TextStore>().unwrap();
    assert_eq!(back.contents.data(), "w");
    let erased: AnyNodeArc = text.into();
    assert_eq!(erased.downgrade().common, erased.common);
}
