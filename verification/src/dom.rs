//! Values of the DOM.

use vstd::prelude::*;

verus! {

/// DOM node types.
#[derive(Debug, Clone, Copy, PartialEq, Eq)]
pub enum DOMNodeType {
    Unsupported,
    Element,
    Attribute,
    Text,
    CDataSection,
    ProcessingInstructions,
    Comment,
    Document,
    DocumentType,
    DocumentFragment,
}

/// The `cef_dom_node_type_t` code of a value of [DOMNodeType].
pub open spec fn dom_node_type_code(v: DOMNodeType) -> u32 {
    match v {
        DOMNodeType::Unsupported => 0,
        DOMNodeType::Element => 1,
        DOMNodeType::Attribute => 2,
        DOMNodeType::Text => 3,
        DOMNodeType::CDataSection => 4,
        DOMNodeType::ProcessingInstructions => 5,
        DOMNodeType::Comment => 6,
        DOMNodeType::Document => 7,
        DOMNodeType::DocumentType => 8,
        DOMNodeType::DocumentFragment => 9,
    }
}

/// Each value of [DOMNodeType] has its code from CEF's header.
pub proof fn lemma_dom_node_type_codes()
    ensures
        dom_node_type_code(DOMNodeType::Unsupported) == 0,
        dom_node_type_code(DOMNodeType::Element) == 1,
        dom_node_type_code(DOMNodeType::Attribute) == 2,
        dom_node_type_code(DOMNodeType::Text) == 3,
        dom_node_type_code(DOMNodeType::CDataSection) == 4,
        dom_node_type_code(DOMNodeType::ProcessingInstructions) == 5,
        dom_node_type_code(DOMNodeType::Comment) == 6,
        dom_node_type_code(DOMNodeType::Document) == 7,
        dom_node_type_code(DOMNodeType::DocumentType) == 8,
        dom_node_type_code(DOMNodeType::DocumentFragment) == 9,
{
}

impl DOMNodeType {
    /// The value with a known `cef_dom_node_type_t` code.
    pub fn from_unchecked(c: u32) -> (v: DOMNodeType)
        requires
            c < 10,
        ensures
            dom_node_type_code(v) == c,
    {
        match c {
            0 => DOMNodeType::Unsupported,
            1 => DOMNodeType::Element,
            2 => DOMNodeType::Attribute,
            3 => DOMNodeType::Text,
            4 => DOMNodeType::CDataSection,
            5 => DOMNodeType::ProcessingInstructions,
            6 => DOMNodeType::Comment,
            7 => DOMNodeType::Document,
            8 => DOMNodeType::DocumentType,
            _ => DOMNodeType::DocumentFragment,
        }
    }

    /// The `cef_dom_node_type_t` code of this value.
    pub fn to_raw(&self) -> (c: u32)
        ensures
            c == dom_node_type_code(*self),
    {
        match self {
            DOMNodeType::Unsupported => 0,
            DOMNodeType::Element => 1,
            DOMNodeType::Attribute => 2,
            DOMNodeType::Text => 3,
            DOMNodeType::CDataSection => 4,
            DOMNodeType::ProcessingInstructions => 5,
            DOMNodeType::Comment => 6,
            DOMNodeType::Document => 7,
            DOMNodeType::DocumentType => 8,
            DOMNodeType::DocumentFragment => 9,
        }
    }
}

} // verus!
