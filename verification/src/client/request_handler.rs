use vstd::prelude::*;

verus! {

/// The manner in which a link click should be opened.
#[derive(Debug, Clone, Copy, PartialEq, Eq)]
pub enum WindowOpenDisposition {
    Unknown,
    CurrentTab,
    SingletonTab,
    NewForegroundTab,
    NewBackgroundTab,
    NewPopup,
    NewWindow,
    SaveToDisk,
    OffTheRecord,
    IgnoreAction,
}

/// The `cef_window_open_disposition_t` code of a value of [WindowOpenDisposition].
pub open spec fn window_open_disposition_code(v: WindowOpenDisposition) -> u32 {
    match v {
        WindowOpenDisposition::Unknown => 0,
        WindowOpenDisposition::CurrentTab => 1,
        WindowOpenDisposition::SingletonTab => 2,
        WindowOpenDisposition::NewForegroundTab => 3,
        WindowOpenDisposition::NewBackgroundTab => 4,
        WindowOpenDisposition::NewPopup => 5,
        WindowOpenDisposition::NewWindow => 6,
        WindowOpenDisposition::SaveToDisk => 7,
        WindowOpenDisposition::OffTheRecord => 8,
        WindowOpenDisposition::IgnoreAction => 9,
    }
}

/// Each value of [WindowOpenDisposition] has its code from CEF's header.
pub proof fn lemma_window_open_disposition_codes()
    ensures
        window_open_disposition_code(WindowOpenDisposition::Unknown) == 0,
        window_open_disposition_code(WindowOpenDisposition::CurrentTab) == 1,
        window_open_disposition_code(WindowOpenDisposition::SingletonTab) == 2,
        window_open_disposition_code(WindowOpenDisposition::NewForegroundTab) == 3,
        window_open_disposition_code(WindowOpenDisposition::NewBackgroundTab) == 4,
        window_open_disposition_code(WindowOpenDisposition::NewPopup) == 5,
        window_open_disposition_code(WindowOpenDisposition::NewWindow) == 6,
        window_open_disposition_code(WindowOpenDisposition::SaveToDisk) == 7,
        window_open_disposition_code(WindowOpenDisposition::OffTheRecord) == 8,
        window_open_disposition_code(WindowOpenDisposition::IgnoreAction) == 9,
{
}

impl WindowOpenDisposition {
    /// The value with a known `cef_window_open_disposition_t` code.
    pub fn from_unchecked(c: u32) -> (v: WindowOpenDisposition)
        requires
            0 <= c < 10,
        ensures
            window_open_disposition_code(v) == c,
    {
        match c {
            0 => WindowOpenDisposition::Unknown,
            1 => WindowOpenDisposition::CurrentTab,
            2 => WindowOpenDisposition::SingletonTab,
            3 => WindowOpenDisposition::NewForegroundTab,
            4 => WindowOpenDisposition::NewBackgroundTab,
            5 => WindowOpenDisposition::NewPopup,
            6 => WindowOpenDisposition::NewWindow,
            7 => WindowOpenDisposition::SaveToDisk,
            8 => WindowOpenDisposition::OffTheRecord,
            _ => WindowOpenDisposition::IgnoreAction,
        }
    }

    /// The `cef_window_open_disposition_t` code of this value.
    pub fn to_raw(&self) -> (c: u32)
        ensures
            c == window_open_disposition_code(*self),
    {
        match self {
            WindowOpenDisposition::Unknown => 0,
            WindowOpenDisposition::CurrentTab => 1,
            WindowOpenDisposition::SingletonTab => 2,
            WindowOpenDisposition::NewForegroundTab => 3,
            WindowOpenDisposition::NewBackgroundTab => 4,
            WindowOpenDisposition::NewPopup => 5,
            WindowOpenDisposition::NewWindow => 6,
            WindowOpenDisposition::SaveToDisk => 7,
            WindowOpenDisposition::OffTheRecord => 8,
            WindowOpenDisposition::IgnoreAction => 9,
        }
    }
}

/// Process termination status values.
#[derive(Debug, Clone, Copy, PartialEq, Eq)]
pub enum TerminationStatus {
    /// Non-zero exit status.
    AbnormalTermination,
    /// SIGKILL or task manager kill.
    ProcessWasKilled,
    /// Segmentation fault.
    ProcessCrashed,
    /// Out of memory.
    ProcessOom,
}

/// The `cef_termination_status_t` code of a value of [TerminationStatus].
pub open spec fn termination_status_code(v: TerminationStatus) -> u32 {
    match v {
        TerminationStatus::AbnormalTermination => 0,
        TerminationStatus::ProcessWasKilled => 1,
        TerminationStatus::ProcessCrashed => 2,
        TerminationStatus::ProcessOom => 3,
    }
}

/// Each value of [TerminationStatus] has its code from CEF's header.
pub proof fn lemma_termination_status_codes()
    ensures
        termination_status_code(TerminationStatus::AbnormalTermination) == 0,
        termination_status_code(TerminationStatus::ProcessWasKilled) == 1,
        termination_status_code(TerminationStatus::ProcessCrashed) == 2,
        termination_status_code(TerminationStatus::ProcessOom) == 3,
{
}

impl TerminationStatus {
    /// The value with a known `cef_termination_status_t` code.
    pub fn from_unchecked(c: u32) -> (v: TerminationStatus)
        requires
            0 <= c < 4,
        ensures
            termination_status_code(v) == c,
    {
        match c {
            0 => TerminationStatus::AbnormalTermination,
            1 => TerminationStatus::ProcessWasKilled,
            2 => TerminationStatus::ProcessCrashed,
            _ => TerminationStatus::ProcessOom,
        }
    }

    /// The `cef_termination_status_t` code of this value.
    pub fn to_raw(&self) -> (c: u32)
        ensures
            c == termination_status_code(*self),
    {
        match self {
            TerminationStatus::AbnormalTermination => 0,
            TerminationStatus::ProcessWasKilled => 1,
            TerminationStatus::ProcessCrashed => 2,
            TerminationStatus::ProcessOom => 3,
        }
    }
}

} // verus!
