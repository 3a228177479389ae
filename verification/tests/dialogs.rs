use cef::file_dialog::{FileDialogMode, FileDialogModeFlags};
use cef::load_handler::{TransitionType, TransitionTypeQualifiers};

fn flags(bits: u32) -> FileDialogModeFlags {
    FileDialogModeFlags { bits }
}

#[test]
fn file_dialog_modes_from_raw() {
    assert_eq!(FileDialogMode::try_from_raw(0), Ok(FileDialogMode::Open(flags(0))));
    assert_eq!(FileDialogMode::try_from_raw(1), Ok(FileDialogMode::OpenMultiple(flags(0))));
    assert_eq!(FileDialogMode::try_from_raw(2), Ok(FileDialogMode::OpenFolder(flags(0))));
    assert_eq!(
        FileDialogMode::try_from_raw(3 | 0x0100_0000),
        Ok(FileDialogMode::Save(flags(FileDialogModeFlags::OVERWRITE_PROMPT)))
    );
    assert_eq!(
        FileDialogMode::try_from_raw(0x0300_0000),
        Ok(FileDialogMode::Open(flags(0x0300_0000)))
    );
    // unknown option bits are dropped
    assert_eq!(FileDialogMode::try_from_raw(0x0400_0001), Ok(FileDialogMode::OpenMultiple(flags(0))));
}

#[test]
fn file_dialog_unknown_type_is_error() {
    assert_eq!(FileDialogMode::try_from_raw(4), Err(()));
    assert_eq!(FileDialogMode::try_from_raw(0xFF | 0x0100_0000), Err(()));
}

#[test]
fn file_dialog_round_trip() {
    for base in 0..4u32 {
        for opts in [0u32, 0x0100_0000, 0x0200_0000, 0x0300_0000].iter() {
            let mode = FileDialogMode::try_from_raw(base | *opts).unwrap();
            assert_eq!(mode.clone().into_raw(), base | *opts);
            assert_eq!(FileDialogMode::try_from_raw(mode.clone().into_raw()), Ok(mode));
        }
    }
}

#[test]
fn file_dialog_flags_insert() {
    let mut f = FileDialogModeFlags::empty();
    f.insert(FileDialogModeFlags::HIDE_READ_ONLY);
    assert_eq!(f.bits(), 0x0200_0000);
}

#[test]
fn transition_types_from_raw() {
    let q = |bits: u32| TransitionTypeQualifiers { bits };
    assert_eq!(TransitionType::try_from_raw(0), Ok(TransitionType::Link(q(0))));
    assert_eq!(TransitionType::try_from_raw(1), Ok(TransitionType::Explicit(q(0))));
    assert_eq!(TransitionType::try_from_raw(3), Ok(TransitionType::AutoSubframe(q(0))));
    assert_eq!(TransitionType::try_from_raw(4), Ok(TransitionType::ManualSubframe(q(0))));
    assert_eq!(TransitionType::try_from_raw(7), Ok(TransitionType::FormSubmit(q(0))));
    assert_eq!(
        TransitionType::try_from_raw(8 | 0x0100_0000 | 0x4000_0000),
        Ok(TransitionType::Reload(q(0x4100_0000)))
    );
    // unknown qualifier bits are dropped
    assert_eq!(TransitionType::try_from_raw(0x0000_1000), Ok(TransitionType::Link(q(0))));
}

#[test]
fn transition_unknown_source_is_error() {
    assert_eq!(TransitionType::try_from_raw(2), Err(()));
    assert_eq!(TransitionType::try_from_raw(5), Err(()));
    assert_eq!(TransitionType::try_from_raw(0x8000_0009), Err(()));
}

#[test]
fn transition_redirects() {
    assert!(TransitionTypeQualifiers::from_bits_truncate(TransitionTypeQualifiers::CLIENT_REDIRECT).is_redirect());
    assert!(TransitionTypeQualifiers::from_bits_truncate(TransitionTypeQualifiers::SERVER_REDIRECT).is_redirect());
    assert!(!TransitionTypeQualifiers::from_bits_truncate(TransitionTypeQualifiers::CHAIN_END).is_redirect());
    assert_eq!(TransitionTypeQualifiers::from_bits_truncate(0xFFFF_FFFF).bits(), 0xF180_0000);
}
