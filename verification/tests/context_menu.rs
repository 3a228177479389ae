use cef::client::context_menu_handler::{
    accelerator_result, color_result, index_from_raw, index_to_raw, Accelerator, CommandId, ContextMenuEditStateFlags,
    ContextMenuMediaStateFlags, ContextMenuTypeFlags, GroupId, MenuColorType, MenuItemType, Modifiers,
};
use cef::color::Color;

#[test]
fn ids_reject_negative_values() {
    assert_eq!(CommandId::new(-1), None);
    assert_eq!(CommandId::new(0).map(|c| c.get()), Some(0));
    assert_eq!(CommandId::new(26500).map(|c| c.get()), Some(26500));
    assert_eq!(GroupId::new(-5), None);
    assert_eq!(GroupId::new(3).map(|g| g.get()), Some(3));
    assert_eq!(CommandId::from_unchecked(-2).get(), -2);
}

#[test]
fn accelerator_from_raw_sets_flags() {
    let a = Accelerator::from_raw(0x41, 1, 0, 5);
    assert_eq!(a.key, 0x41);
    assert!(a.modifiers.contains(Modifiers::SHIFT));
    assert!(!a.modifiers.contains(Modifiers::CTRL));
    assert!(a.modifiers.contains(Modifiers::ALT));
    assert_eq!(a.modifiers.bits(), 5);
    assert_eq!(a.to_raw(), (0x41, 1, 0, 1));
}

#[test]
fn accelerator_round_trip() {
    for bits in 0u8..8 {
        let a = Accelerator { key: -7, modifiers: Modifiers::from_bits_truncate(bits) };
        let (k, s, c, al) = a.to_raw();
        assert_eq!(Accelerator::from_raw(k, s, c, al), a);
    }
}

#[test]
fn accelerator_set_raw_writes_all_places() {
    let a = Accelerator::from_raw(13, 0, 9, 0);
    let (mut k, mut s, mut c, mut al) = (0, 5, 5, 5);
    a.set_raw(&mut k, &mut s, &mut c, &mut al);
    assert_eq!((k, s, c, al), (13, 0, 1, 0));
}

#[test]
fn modifiers_truncate_unknown_bits() {
    assert_eq!(Modifiers::from_bits_truncate(0xFF).bits(), 7);
    let mut m = Modifiers::empty();
    m.set(Modifiers::CTRL, true);
    assert_eq!(m.bits(), 2);
    m.set(Modifiers::CTRL, false);
    assert_eq!(m.bits(), 0);
}

#[test]
fn menu_results() {
    assert_eq!(index_from_raw(-1), None);
    assert_eq!(index_from_raw(0), Some(0));
    assert_eq!(index_from_raw(12), Some(12));
    assert_eq!(index_to_raw(12), 12);
    assert_eq!(accelerator_result(false, 1, 1, 1, 1), None);
    assert_eq!(accelerator_result(true, 1, 0, 1, 0), Some(Accelerator::from_raw(1, 0, 1, 0)));
    assert_eq!(color_result(false, 0xFF00_00FF), None);
    assert_eq!(color_result(true, 0xFF00_00FF), Some(Color(0xFF00_00FF)));
}

#[test]
fn menu_codes() {
    assert_eq!(MenuColorType::from_unchecked(4), MenuColorType::Background);
    assert_eq!(MenuColorType::BackgroundHovered.to_raw(), 5);
    assert_eq!(MenuItemType::from_unchecked(4), MenuItemType::Separator);
    assert_eq!(MenuItemType::from_unchecked(0), MenuItemType::NoItem);
}

#[test]
fn context_menu_flags_truncate_unknown_bits() {
    let t = ContextMenuTypeFlags::from_bits_truncate(ContextMenuTypeFlags::LINK | ContextMenuTypeFlags::EDITABLE | 0x100);
    assert_eq!(t.bits(), 36);
    assert!(t.contains(ContextMenuTypeFlags::LINK));
    assert!(!t.contains(ContextMenuTypeFlags::MEDIA));
    assert_eq!(ContextMenuMediaStateFlags::from_bits_truncate(-1).bits(), 0x3FF);
    assert!(ContextMenuEditStateFlags::from_bits_truncate(ContextMenuEditStateFlags::CAN_SELECT_ALL).contains(64));
}
