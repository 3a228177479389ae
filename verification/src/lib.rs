//! Safe, verified core of a Chromium Embedded Framework binding: the value
//! types, code conversions and decision logic that sit between Rust callers
//! and the CEF C API.
#![allow(non_upper_case_globals)]

pub mod browser;
pub mod browser_host;
pub mod cef_helper_traits;
pub mod color;
pub mod cookie;
pub mod dom;
pub mod drag;
pub mod events;
pub mod file_dialog;
pub mod frame;
pub mod image;
pub mod ime;
pub mod load_handler;
pub mod logging;
pub mod media_router;
pub mod misc_fns;
pub mod multimap;
pub mod printing;
pub mod process;
pub mod ptr_hash;
pub mod client;
pub mod values;

pub use misc_fns::Context;

use vstd::prelude::*;

verus! {

/// Return value types.
#[derive(Debug, Clone, Copy, PartialEq, Eq)]
pub enum ReturnValue {
    /// Cancel immediately.
    Cancel,
    /// Continue immediately.
    Continue,
    /// Continue asynchronously (usually via a callback).
    ContinueAsync,
}

/// The `cef_return_value_t` code of a value of [ReturnValue].
pub open spec fn return_value_code(v: ReturnValue) -> u32 {
    match v {
        ReturnValue::Cancel => 0,
        ReturnValue::Continue => 1,
        ReturnValue::ContinueAsync => 2,
    }
}

/// Each value of [ReturnValue] has its code from CEF's header.
pub proof fn lemma_return_value_codes()
    ensures
        return_value_code(ReturnValue::Cancel) == 0,
        return_value_code(ReturnValue::Continue) == 1,
        return_value_code(ReturnValue::ContinueAsync) == 2,
{
}

impl ReturnValue {
    /// The value with a known `cef_return_value_t` code.
    pub fn from_unchecked(c: u32) -> (v: ReturnValue)
        requires
            0 <= c < 3,
        ensures
            return_value_code(v) == c,
    {
        match c {
            0 => ReturnValue::Cancel,
            1 => ReturnValue::Continue,
            _ => ReturnValue::ContinueAsync,
        }
    }

    /// The `cef_return_value_t` code of this value.
    pub fn to_raw(&self) -> (c: u32)
        ensures
            c == return_value_code(*self),
    {
        match self {
            ReturnValue::Cancel => 0,
            ReturnValue::Continue => 1,
            ReturnValue::ContinueAsync => 2,
        }
    }
}

} // verus!
