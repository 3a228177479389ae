use cef::client::context_menu_handler::{Accelerator, Modifiers};
use cef::client::drag_handler::DraggableRegion;
use cef::dom::DOMNodeType;
use cef::events::KeyEventType;
use cef::media_router::{MediaRouteConnectionState, MediaRouteCreateResult, MediaSinkIconType};
use cef::values::Rect;

#[test]
fn dom_node_type_codes() {
    assert_eq!(DOMNodeType::from_unchecked(0), DOMNodeType::Unsupported);
    assert_eq!(DOMNodeType::from_unchecked(3), DOMNodeType::Text);
    assert_eq!(DOMNodeType::DocumentFragment.to_raw(), 9);
    for c in 0..10u32 {
        assert_eq!(DOMNodeType::from_unchecked(c).to_raw(), c);
    }
}

#[test]
fn key_event_type_codes() {
    assert_eq!(KeyEventType::from_unchecked(0), KeyEventType::RawKeyDown);
    assert_eq!(KeyEventType::from_unchecked(3), KeyEventType::Char);
    assert_eq!(KeyEventType::KeyUp.to_raw(), 2);
}

#[test]
fn media_router_codes() {
    assert_eq!(MediaRouteCreateResult::from_unchecked(1), MediaRouteCreateResult::Success);
    assert_eq!(MediaRouteCreateResult::from_unchecked(7), MediaRouteCreateResult::NoSupportedProvider);
    assert_eq!(MediaRouteCreateResult::RouteAlreadyExists.to_raw(), 9);
    assert_eq!(MediaRouteConnectionState::from_unchecked(4), MediaRouteConnectionState::Terminated);
    assert_eq!(MediaRouteConnectionState::Connected.to_raw(), 2);
    assert_eq!(MediaSinkIconType::from_unchecked(7), MediaSinkIconType::Generic);
    assert_eq!(MediaSinkIconType::CastAudio.to_raw(), 2);
}

#[test]
fn draggable_region_reads_c_boolean() {
    let bounds = Rect { x: 1, y: 2, width: 30, height: 40 };
    let r = DraggableRegion { bounds, draggable: 2 };
    assert_eq!(r.bounds(), bounds);
    assert!(r.draggable());
    assert!(!DraggableRegion { bounds, draggable: 0 }.draggable());
}

#[test]
fn modifiers_hold_only_known_bits() {
    let mut m = Modifiers::empty();
    m.set(Modifiers::SHIFT | Modifiers::ALT, true);
    assert_eq!(m.bits(), 5);
    m.set(Modifiers::SHIFT, false);
    assert_eq!(m.bits(), 4);
    let a = Accelerator { key: 65, modifiers: m };
    let (key, shift, ctrl, alt) = a.to_raw();
    assert_eq!(Accelerator::from_raw(key, shift, ctrl, alt), a);
}
