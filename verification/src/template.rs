//! Recipes for the payloads of the known elements and of attributes, and the
//! builder that makes element nodes from them.

use vstd::prelude::*;
use std::sync::Arc;
use crate::contents::AttributeStore;
use crate::element::{
    ElementNodeStore, HtmlBodyStore, HtmlButtonStore, HtmlElementStore, HtmlHtmlStore,
    HtmlUnknownStore,
};
use crate::node::{ConcreteNodeArc, ElementNodeArc};
use crate::sandbox::{ContextWeak, Sandbox};
use crate::sandbox_member::Template;

verus! {

/// The recipe for an `html` element.
#[derive(Clone, Copy, Debug, Default)]
pub struct HtmlHtmlTemplate;

/// The recipe for a `body` element.
#[derive(Clone, Copy, Debug, Default)]
pub struct HtmlBodyTemplate;

/// The recipe for a `button` element.
#[derive(Clone, Copy, Debug, Default)]
pub struct HtmlButtonTemplate;

/// The recipe for an element with a tag of its own.
#[derive(Clone, Debug)]
pub struct HtmlUnknownTemplate(pub String);

/// The recipe for an attribute node with the given payload.
#[derive(Debug)]
pub struct AttributeTemplate(pub Arc<AttributeStore>);

impl Template for HtmlHtmlTemplate {
    type Store = ElementNodeStore;

    open spec fn payload(&self) -> ElementNodeStore {
        ElementNodeStore::HtmlElement(HtmlElementStore::HtmlHtml(HtmlHtmlStore))
    }

    fn into_payload(self) -> (payload: Arc<ElementNodeStore>) {
        Arc::new(ElementNodeStore::HtmlElement(HtmlElementStore::HtmlHtml(HtmlHtmlStore)))
    }
}

impl Template for HtmlBodyTemplate {
    type Store = ElementNodeStore;

    open spec fn payload(&self) -> ElementNodeStore {
        ElementNodeStore::HtmlElement(HtmlElementStore::HtmlBody(HtmlBodyStore))
    }

    fn into_payload(self) -> (payload: Arc<ElementNodeStore>) {
        Arc::new(ElementNodeStore::HtmlElement(HtmlElementStore::HtmlBody(HtmlBodyStore)))
    }
}

impl Template for HtmlButtonTemplate {
    type Store = ElementNodeStore;

    open spec fn payload(&self) -> ElementNodeStore {
        ElementNodeStore::HtmlElement(HtmlElementStore::HtmlButton(HtmlButtonStore))
    }

    fn into_payload(self) -> (payload: Arc<ElementNodeStore>) {
        Arc::new(ElementNodeStore::HtmlElement(HtmlElementStore::HtmlButton(HtmlButtonStore)))
    }
}

impl Template for HtmlUnknownTemplate {
    type Store = ElementNodeStore;

    open spec fn payload(&self) -> ElementNodeStore {
        ElementNodeStore::HtmlElement(
            HtmlElementStore::HtmlUnknown(HtmlUnknownStore { tag_name: self.0 }),
        )
    }

    fn into_payload(self) -> (payload: Arc<ElementNodeStore>) {
        Arc::new(
            ElementNodeStore::HtmlElement(
                HtmlElementStore::HtmlUnknown(HtmlUnknownStore { tag_name: self.0 }),
            ),
        )
    }
}

impl Template for AttributeTemplate {
    type Store = AttributeStore;

    open spec fn payload(&self) -> AttributeStore {
        *self.0
    }

    fn into_payload(self) -> (payload: Arc<AttributeStore>) {
        self.0
    }
}

/// A builder of element nodes for one sandbox.
#[derive(Clone, Copy, Debug)]
pub struct Builder {
    /// The sandbox that the builder was made for.
    pub sandbox: ContextWeak,
}

impl Builder {
    /// A builder for the sandbox behind `sandbox`.
    pub fn new(sandbox: ContextWeak) -> (builder: Builder)
        ensures
            builder.sandbox == sandbox,
    {
        Builder { sandbox }
    }

    /// Creates the element that `template` describes in `sandbox`, whether or
    /// not the sandbox is still alive.
    fn build_element<P: Template<Store = ElementNodeStore>>(
        &self,
        sandbox: &mut Sandbox,
        template: P,
    ) -> (node: ElementNodeArc)
        requires
            old(sandbox).wf(),
        ensures
            final(sandbox).wf(),
            *node.contents == template.payload(),
            node.erased() == old(sandbox)@.next_node(node.erased().contents),
            final(sandbox)@ == old(sandbox)@.with_node(node.erased().contents),
            final(sandbox)@.owns(node.erased()),
    {
        ConcreteNodeArc::<ElementNodeStore>::new(sandbox, template.into_payload())
    }

    /// Creates an `html` element in `sandbox`.
    pub fn build_html(&self, sandbox: &mut Sandbox) -> (node: ElementNodeArc)
        requires
            old(sandbox).wf(),
        ensures
            final(sandbox).wf(),
            *node.contents == HtmlHtmlTemplate.payload(),
            node.contents.tag() == "HTML"@,
            node.erased() == old(sandbox)@.next_node(node.erased().contents),
            final(sandbox)@ == old(sandbox)@.with_node(node.erased().contents),
            final(sandbox)@.owns(node.erased()),
    {
        self.build_element(sandbox, HtmlHtmlTemplate)
    }

    /// Creates a `body` element in `sandbox`.
    pub fn build_body(&self, sandbox: &mut Sandbox) -> (node: ElementNodeArc)
        requires
            old(sandbox).wf(),
        ensures
            final(sandbox).wf(),
            *node.contents == HtmlBodyTemplate.payload(),
            node.contents.tag() == "BODY"@,
            node.erased() == old(sandbox)@.next_node(node.erased().contents),
            final(sandbox)@ == old(sandbox)@.with_node(node.erased().contents),
            final(sandbox)@.owns(node.erased()),
    {
        self.build_element(sandbox, HtmlBodyTemplate)
    }

    /// Creates a `button` element in `sandbox`.
    pub fn build_button(&self, sandbox: &mut Sandbox) -> (node: ElementNodeArc)
        requires
            old(sandbox).wf(),
        ensures
            final(sandbox).wf(),
            *node.contents == HtmlButtonTemplate.payload(),
            node.contents.tag() == "BUTTON"@,
            node.erased() == old(sandbox)@.next_node(node.erased().contents),
            final(sandbox)@ == old(sandbox)@.with_node(node.erased().contents),
            final(sandbox)@.owns(node.erased()),
    {
        self.build_element(sandbox, HtmlButtonTemplate)
    }

    /// Creates an element with the tag name `tag_name` in `sandbox`.
    pub fn build_unknown(&self, sandbox: &mut Sandbox, tag_name: String) -> (node: ElementNodeArc)
        requires
            old(sandbox).wf(),
        ensures
            final(sandbox).wf(),
            *node.contents == HtmlUnknownTemplate(tag_name).payload(),
            node.contents.tag() == tag_name@,
            node.erased() == old(sandbox)@.next_node(node.erased().contents),
            final(sandbox)@ == old(sandbox)@.with_node(node.erased().contents),
            final(sandbox)@.owns(node.erased()),
    {
        self.build_element(sandbox, HtmlUnknownTemplate(tag_name))
    }
}

} // verus!
