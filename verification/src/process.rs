use vstd::prelude::*;

verus! {

/// Existing process IDs.
#[derive(Debug, Clone, Copy, PartialEq, Eq)]
pub enum ProcessId {
    /// Browser process.
    Browser,
    /// Renderer process.
    Renderer,
}

/// The `cef_process_id_t` code of a process ID.
pub open spec fn process_id_code(p: ProcessId) -> u32 {
    match p {
        ProcessId::Browser => 0,
        ProcessId::Renderer => 1,
    }
}

/// Each value of [ProcessId] has its code from CEF's header.
pub proof fn lemma_process_id_codes()
    ensures
        process_id_code(ProcessId::Browser) == 0,
        process_id_code(ProcessId::Renderer) == 1,
{
}

impl ProcessId {
    /// The process ID with a known `cef_process_id_t` code.
    pub fn from_unchecked(c: u32) -> (p: ProcessId)
        requires
            c <= 1,
        ensures
            process_id_code(p) == c,
    {
        if c == 0 {
            ProcessId::Browser
        } else {
            ProcessId::Renderer
        }
    }

    /// The `cef_process_id_t` code of this process ID.
    pub fn to_raw(&self) -> (c: u32)
        ensures
            c == process_id_code(*self),
    {
        match self {
            ProcessId::Browser => 0,
            ProcessId::Renderer => 1,
        }
    }
}

} // verus!
