//! The payloads of element nodes, and the tag name of each.

use vstd::prelude::*;

verus! {

/// Payload of the `html` element.
#[derive(Clone, Debug, Default)]
pub struct HtmlHtmlStore;

/// Payload of an element whose tag this library does not know.
#[derive(Clone, Debug)]
pub struct HtmlUnknownStore {
    pub tag_name: String,
}

/// Payload of the `body` element.
#[derive(Clone, Debug, Default)]
pub struct HtmlBodyStore;

/// Payload of the `button` element.
#[derive(Clone, Debug, Default)]
pub struct HtmlButtonStore;

/// Every HTML element payload.
#[derive(Clone, Debug)]
pub enum HtmlElementStore {
    HtmlHtml(HtmlHtmlStore),
    HtmlBody(HtmlBodyStore),
    HtmlButton(HtmlButtonStore),
    /// An element with a tag of its own.
    HtmlUnknown(HtmlUnknownStore),
}

/// Every SVG element payload. No SVG element is known by name, so each
/// carries its own tag.
#[derive(Clone, Debug)]
pub enum SvgElementStore {
    SvgUnknown(HtmlUnknownStore),
}

/// Every element payload.
#[derive(Clone, Debug)]
pub enum ElementNodeStore {
    HtmlElement(HtmlElementStore),
    SvgElement(SvgElementStore),
}

impl HtmlElementStore {
    /// The tag name of this element, as a sequence of characters.
    pub open spec fn tag(self) -> Seq<char> {
        match self {
            HtmlElementStore::HtmlHtml(_) => "HTML"@,
            HtmlElementStore::HtmlBody(_) => "BODY"@,
            HtmlElementStore::HtmlButton(_) => "BUTTON"@,
            HtmlElementStore::HtmlUnknown(store) => store.tag_name@,
        }
    }

    /// The tag name of this element: fixed for the known elements, the stored
    /// one for an unknown element.
    pub fn tag_name(&self) -> (name: String)
        ensures
            name@ == self.tag(),
    {
        match self {
            HtmlElementStore::HtmlHtml(_) => "HTML".to_owned(),
            HtmlElementStore::HtmlBody(_) => "BODY".to_owned(),
            HtmlElementStore::HtmlButton(_) => "BUTTON".to_owned(),
            HtmlElementStore::HtmlUnknown(store) => store.tag_name.clone(),
        }
    }
}

impl ElementNodeStore {
    /// The tag name of this element, as a sequence of characters.
    pub open spec fn tag(self) -> Seq<char> {
        match self {
            ElementNodeStore::HtmlElement(el) => el.tag(),
            ElementNodeStore::SvgElement(SvgElementStore::SvgUnknown(store)) => store.tag_name@,
        }
    }

    /// The tag name of this element.
    pub fn tag_name(&self) -> (name: String)
        ensures
            name@ == self.tag(),
    {
        match self {
            ElementNodeStore::HtmlElement(el) => el.tag_name(),
            ElementNodeStore::SvgElement(SvgElementStore::SvgUnknown(store)) => {
                store.tag_name.clone()
            },
        }
    }
}

} // verus!
