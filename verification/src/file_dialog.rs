use vstd::prelude::*;

verus! {

/// Option bits of a file dialog mode (`cef_file_dialog_mode_t` flags).
#[derive(PartialEq, Eq, Clone, Copy, Debug, Hash)]
pub struct FileDialogModeFlags {
    pub bits: u32,
}

/// The type part of a `cef_file_dialog_mode_t` value.
pub const FILE_DIALOG_TYPE_MASK: u32 = 0xFF;

impl FileDialogModeFlags {
    /// Prompt to overwrite if the user selects an existing file with the Save
    /// dialog.
    pub const OVERWRITE_PROMPT: u32 = 0x0100_0000;
    /// Do not display read-only files.
    pub const HIDE_READ_ONLY: u32 = 0x0200_0000;

    /// No option set.
    pub fn empty() -> (f: FileDialogModeFlags)
        ensures
            f.bits == 0,
    {
        FileDialogModeFlags { bits: 0 }
    }

    /// The option bits.
    pub fn bits(&self) -> (b: u32)
        ensures
            b == self.bits,
    {
        self.bits
    }

    /// Sets the bits of `flags`.
    pub fn insert(&mut self, flags: u32)
        ensures
            final(self).bits == old(self).bits | flags,
    {
        self.bits = self.bits | flags;
    }
}

/// Supported file dialog modes, each with its options.
#[derive(PartialEq, Eq, Clone, Debug)]
pub enum FileDialogMode {
    /// Requires that the file exists before allowing the user to pick it.
    Open(FileDialogModeFlags),
    /// Like Open, but allows picking multiple files to open.
    OpenMultiple(FileDialogModeFlags),
    /// Like Open, but selects a folder to open.
    OpenFolder(FileDialogModeFlags),
    /// Allows picking a nonexistent file, and prompts to overwrite if the file
    /// already exists.
    Save(FileDialogModeFlags),
}

/// The option bits that a raw mode value carries: of the two known options,
/// those that are set.
pub open spec fn dialog_flags_of_raw(value: u32) -> u32 {
    value & (FileDialogModeFlags::OVERWRITE_PROMPT | FileDialogModeFlags::HIDE_READ_ONLY)
}

/// The file dialog mode that a raw `cef_file_dialog_mode_t` value describes:
/// its low byte gives the type (0 open, 1 open multiple, 2 open folder,
/// 3 save) and the known option bits are kept; any other type is an error.
pub open spec fn file_dialog_mode_of_raw(value: u32) -> Result<FileDialogMode, ()> {
    let flags = FileDialogModeFlags { bits: dialog_flags_of_raw(value) };
    let base = value & FILE_DIALOG_TYPE_MASK;
    if base == 0 {
        Ok(FileDialogMode::Open(flags))
    } else if base == 1 {
        Ok(FileDialogMode::OpenMultiple(flags))
    } else if base == 2 {
        Ok(FileDialogMode::OpenFolder(flags))
    } else if base == 3 {
        Ok(FileDialogMode::Save(flags))
    } else {
        Err(())
    }
}

/// The raw `cef_file_dialog_mode_t` value of a mode: its type code combined
/// with its option bits.
pub open spec fn raw_of_file_dialog_mode(mode: FileDialogMode) -> u32 {
    match mode {
        FileDialogMode::Open(flags) => 0 | flags.bits,
        FileDialogMode::OpenMultiple(flags) => 1 | flags.bits,
        FileDialogMode::OpenFolder(flags) => 2 | flags.bits,
        FileDialogMode::Save(flags) => 3 | flags.bits,
    }
}

impl FileDialogMode {
    /// The mode that a raw `cef_file_dialog_mode_t` value describes, or an
    /// error for an unknown type.
    pub fn try_from_raw(value: u32) -> (m: Result<FileDialogMode, ()>)
        ensures
            m == file_dialog_mode_of_raw(value),
    {
        let base = value & FILE_DIALOG_TYPE_MASK;
        let mut flags = FileDialogModeFlags::empty();
        if value & FileDialogModeFlags::OVERWRITE_PROMPT != 0 {
            flags.insert(FileDialogModeFlags::OVERWRITE_PROMPT);
        }
        if value & FileDialogModeFlags::HIDE_READ_ONLY != 0 {
            flags.insert(FileDialogModeFlags::HIDE_READ_ONLY);
        }
        assert(flags.bits == dialog_flags_of_raw(value)) by {
            let o = value & 0x0100_0000u32;
            let h = value & 0x0200_0000u32;
            let f1: u32 = if o != 0 { 0u32 | 0x0100_0000u32 } else { 0u32 };
            let f2: u32 = if h != 0 { f1 | 0x0200_0000u32 } else { f1 };
            assert(f2 == value & (0x0100_0000u32 | 0x0200_0000u32)) by (bit_vector)
                requires
                    o == value & 0x0100_0000u32,
                    h == value & 0x0200_0000u32,
                    f1 == (if o != 0 { 0u32 | 0x0100_0000u32 } else { 0u32 }),
                    f2 == (if h != 0 { f1 | 0x0200_0000u32 } else { f1 });
        }
        if base == 0 {
            Ok(FileDialogMode::Open(flags))
        } else if base == 1 {
            Ok(FileDialogMode::OpenMultiple(flags))
        } else if base == 2 {
            Ok(FileDialogMode::OpenFolder(flags))
        } else if base == 3 {
            Ok(FileDialogMode::Save(flags))
        } else {
            Err(())
        }
    }

    /// The raw `cef_file_dialog_mode_t` value of this mode.
    pub fn into_raw(self) -> (value: u32)
        ensures
            value == raw_of_file_dialog_mode(self),
    {
        match self {
            FileDialogMode::Open(flags) => 0 | flags.bits(),
            FileDialogMode::OpenMultiple(flags) => 1 | flags.bits(),
            FileDialogMode::OpenFolder(flags) => 2 | flags.bits(),
            FileDialogMode::Save(flags) => 3 | flags.bits(),
        }
    }
}

/// The option bits of a mode.
pub open spec fn file_dialog_mode_flags(mode: FileDialogMode) -> u32 {
    match mode {
        FileDialogMode::Open(flags) => flags.bits,
        FileDialogMode::OpenMultiple(flags) => flags.bits,
        FileDialogMode::OpenFolder(flags) => flags.bits,
        FileDialogMode::Save(flags) => flags.bits,
    }
}

/// The type codes of `cef_file_dialog_mode_t`: open 0, open multiple 1, open
/// folder 2, save 3, in the low byte, with the option bits beside them. A raw
/// value with one of these codes reads as that type with its known options.
pub proof fn lemma_file_dialog_type_codes(f: FileDialogModeFlags, value: u32)
    ensures
        raw_of_file_dialog_mode(FileDialogMode::Open(f)) == 0 | f.bits,
        raw_of_file_dialog_mode(FileDialogMode::OpenMultiple(f)) == 1 | f.bits,
        raw_of_file_dialog_mode(FileDialogMode::OpenFolder(f)) == 2 | f.bits,
        raw_of_file_dialog_mode(FileDialogMode::Save(f)) == 3 | f.bits,
        value & 0xFF == 0 ==> file_dialog_mode_of_raw(value) == Ok::<FileDialogMode, ()>(FileDialogMode::Open(FileDialogModeFlags { bits: value & 0x0300_0000 })),
        value & 0xFF == 1 ==> file_dialog_mode_of_raw(value) == Ok::<FileDialogMode, ()>(FileDialogMode::OpenMultiple(FileDialogModeFlags { bits: value & 0x0300_0000 })),
        value & 0xFF == 2 ==> file_dialog_mode_of_raw(value) == Ok::<FileDialogMode, ()>(FileDialogMode::OpenFolder(FileDialogModeFlags { bits: value & 0x0300_0000 })),
        value & 0xFF == 3 ==> file_dialog_mode_of_raw(value) == Ok::<FileDialogMode, ()>(FileDialogMode::Save(FileDialogModeFlags { bits: value & 0x0300_0000 })),
        value & 0xFF > 3 ==> file_dialog_mode_of_raw(value) is Err,
{
    assert(0x0100_0000u32 | 0x0200_0000u32 == 0x0300_0000u32) by (bit_vector);
}

/// Reading back the raw value of a mode gives the same mode, as long as its
/// options hold only the two known bits.
pub proof fn lemma_file_dialog_mode_round_trip(mode: FileDialogMode)
    requires
        file_dialog_mode_flags(mode) & !(FileDialogModeFlags::OVERWRITE_PROMPT | FileDialogModeFlags::HIDE_READ_ONLY) == 0,
    ensures
        file_dialog_mode_of_raw(raw_of_file_dialog_mode(mode)) == Ok::<FileDialogMode, ()>(mode),
{
    let f = file_dialog_mode_flags(mode);
    assert(forall|t: u32| t <= 3 ==> #[trigger] ((t | f) & 0xFFu32) == t && ((t | f) & (0x0100_0000u32 | 0x0200_0000u32)) == f) by {
        assert forall|t: u32| t <= 3 implies #[trigger] ((t | f) & 0xFFu32) == t && ((t | f) & (0x0100_0000u32 | 0x0200_0000u32)) == f by {
            assert(((t | f) & 0xFFu32) == t && ((t | f) & (0x0100_0000u32 | 0x0200_0000u32)) == f) by (bit_vector)
                requires
                    t <= 3,
                    f & !(0x0100_0000u32 | 0x0200_0000u32) == 0;
        }
    }
    match mode {
        FileDialogMode::Open(flags) => { assert(((0u32 | f) & 0xFFu32) == 0u32); },
        FileDialogMode::OpenMultiple(flags) => { assert(((1u32 | f) & 0xFFu32) == 1u32); },
        FileDialogMode::OpenFolder(flags) => { assert(((2u32 | f) & 0xFFu32) == 2u32); },
        FileDialogMode::Save(flags) => { assert(((3u32 | f) & 0xFFu32) == 3u32); },
    }
}

} // verus!
