use vstd::prelude::*;

verus! {

/// The source part of a `cef_transition_type_t` value.
pub const TT_SOURCE_MASK: u32 = 0xFF;

/// The redirect qualifiers of a `cef_transition_type_t` value.
pub const TT_IS_REDIRECT_MASK: u32 = 0xC000_0000;

/// The bits of all known transition qualifiers.
pub const TT_QUALIFIERS_ALL: u32 = 0xF180_0000;

/// Qualifiers of a transition type (`cef_transition_type_t` flags).
#[derive(Debug, Clone, Copy, PartialEq, Eq, Hash)]
pub struct TransitionTypeQualifiers {
    pub bits: u32,
}

impl TransitionTypeQualifiers {
    /// Attempted to visit a URL but was blocked.
    pub const BLOCKED: u32 = 0x0080_0000;
    /// Used the Forward or Back function to navigate among browsing history.
    pub const FORWARD_BACK: u32 = 0x0100_0000;
    /// The beginning of a navigation chain.
    pub const CHAIN_START: u32 = 0x1000_0000;
    /// The last transition in a redirect chain.
    pub const CHAIN_END: u32 = 0x2000_0000;
    /// Redirects caused by JavaScript or a meta refresh tag on the page.
    pub const CLIENT_REDIRECT: u32 = 0x4000_0000;
    /// Redirects sent from the server by HTTP headers.
    pub const SERVER_REDIRECT: u32 = 0x8000_0000;

    /// The qualifiers whose bits are set in `bits`; other bits are dropped.
    pub fn from_bits_truncate(bits: u32) -> (q: TransitionTypeQualifiers)
        ensures
            q.bits == bits & TT_QUALIFIERS_ALL,
    {
        TransitionTypeQualifiers { bits: bits & TT_QUALIFIERS_ALL }
    }

    /// The qualifier bits.
    pub fn bits(&self) -> (b: u32)
        ensures
            b == self.bits,
    {
        self.bits
    }

    /// Whether this transition is a redirect, from the client or the server.
    pub fn is_redirect(self) -> (b: bool)
        ensures
            b == (self.bits & TT_IS_REDIRECT_MASK != 0),
    {
        (self.bits & TT_IS_REDIRECT_MASK) != 0
    }
}

/// Transition types: how a navigation started, with its qualifiers.
#[derive(Debug, Clone, PartialEq, Eq)]
pub enum TransitionType {
    /// Source is a link click or the JavaScript window.open function.
    Link(TransitionTypeQualifiers),
    /// Source is some other "explicit" navigation action such as creating a new
    /// browser or using the LoadURL function.
    Explicit(TransitionTypeQualifiers),
    /// Source is a subframe navigation, automatic.
    AutoSubframe(TransitionTypeQualifiers),
    /// Source is a subframe navigation explicitly requested by the user.
    ManualSubframe(TransitionTypeQualifiers),
    /// Source is a form submission by the user.
    FormSubmit(TransitionTypeQualifiers),
    /// Source is a "reload" of the page.
    Reload(TransitionTypeQualifiers),
}

/// The source code of a transition type.
pub open spec fn transition_source_code(t: TransitionType) -> u32 {
    match t {
        TransitionType::Link(_) => 0,
        TransitionType::Explicit(_) => 1,
        TransitionType::AutoSubframe(_) => 3,
        TransitionType::ManualSubframe(_) => 4,
        TransitionType::FormSubmit(_) => 7,
        TransitionType::Reload(_) => 8,
    }
}

/// The source codes of CEF's `cef_transition_type_t`: link 0, explicit 1,
/// automatic subframe 3, manual subframe 4, form submission 7, reload 8,
/// whatever the qualifiers.
pub proof fn lemma_transition_source_codes(q: TransitionTypeQualifiers)
    ensures
        transition_source_code(TransitionType::Link(q)) == 0,
        transition_source_code(TransitionType::Explicit(q)) == 1,
        transition_source_code(TransitionType::AutoSubframe(q)) == 3,
        transition_source_code(TransitionType::ManualSubframe(q)) == 4,
        transition_source_code(TransitionType::FormSubmit(q)) == 7,
        transition_source_code(TransitionType::Reload(q)) == 8,
        transition_qualifiers(TransitionType::Link(q)) == q,
        transition_qualifiers(TransitionType::Reload(q)) == q,
{
}

/// The qualifiers of a transition type.
pub open spec fn transition_qualifiers(t: TransitionType) -> TransitionTypeQualifiers {
    match t {
        TransitionType::Link(q) => q,
        TransitionType::Explicit(q) => q,
        TransitionType::AutoSubframe(q) => q,
        TransitionType::ManualSubframe(q) => q,
        TransitionType::FormSubmit(q) => q,
        TransitionType::Reload(q) => q,
    }
}

/// Whether a number is the source code of a transition type.
pub open spec fn is_transition_source(source: u32) -> bool {
    source == 0 || source == 1 || source == 3 || source == 4 || source == 7 || source == 8
}

/// The transition type that a raw `cef_transition_type_t` value describes:
/// its low byte is the source and its known qualifier bits are kept; an
/// unknown source is an error.
pub open spec fn transition_type_matches(value: u32, t: TransitionType) -> bool {
    &&& transition_source_code(t) == value & TT_SOURCE_MASK
    &&& transition_qualifiers(t).bits == value & TT_QUALIFIERS_ALL
}

impl TransitionType {
    /// The transition type that a raw `cef_transition_type_t` value describes,
    /// or an error where its source is unknown.
    pub fn try_from_raw(value: u32) -> (t: Result<TransitionType, ()>)
        ensures
            t is Ok <==> is_transition_source(value & TT_SOURCE_MASK),
            t matches Ok(tt) ==> transition_type_matches(value, tt),
    {
        let flags = TransitionTypeQualifiers::from_bits_truncate(value);
        let source = value & TT_SOURCE_MASK;
        if source == 0 {
            Ok(TransitionType::Link(flags))
        } else if source == 1 {
            Ok(TransitionType::Explicit(flags))
        } else if source == 3 {
            Ok(TransitionType::AutoSubframe(flags))
        } else if source == 4 {
            Ok(TransitionType::ManualSubframe(flags))
        } else if source == 7 {
            Ok(TransitionType::FormSubmit(flags))
        } else if source == 8 {
            Ok(TransitionType::Reload(flags))
        } else {
            Err(())
        }
    }
}

/// A raw value describes exactly one transition type: two that match it are
/// equal.
pub proof fn lemma_transition_type_unique(value: u32, a: TransitionType, b: TransitionType)
    requires
        transition_type_matches(value, a),
        transition_type_matches(value, b),
    ensures
        a == b,
{
}

/// The value combining the source code and the qualifier bits of a transition
/// type describes that transition type, as long as it holds only known
/// qualifiers.
pub proof fn lemma_transition_type_from_parts(t: TransitionType)
    requires
        transition_qualifiers(t).bits & !TT_QUALIFIERS_ALL == 0,
    ensures
        transition_type_matches(transition_source_code(t) | transition_qualifiers(t).bits, t),
{
    let s = transition_source_code(t);
    let q = transition_qualifiers(t).bits;
    assert(((s | q) & 0xFFu32) == s && ((s | q) & 0xF180_0000u32) == q) by (bit_vector)
        requires
            s <= 8,
            q & !0xF180_0000u32 == 0;
}

/// A transition is a redirect exactly when it carries the client or the
/// server redirect qualifier.
pub proof fn lemma_redirect_qualifiers(q: TransitionTypeQualifiers)
    ensures
        (q.bits & TT_IS_REDIRECT_MASK != 0) <==> (q.bits & TransitionTypeQualifiers::CLIENT_REDIRECT != 0
            || q.bits & TransitionTypeQualifiers::SERVER_REDIRECT != 0),
{
    let b = q.bits;
    assert((b & 0xC000_0000u32 != 0) <==> (b & 0x4000_0000u32 != 0 || b & 0x8000_0000u32 != 0)) by (bit_vector);
}

} // verus!
