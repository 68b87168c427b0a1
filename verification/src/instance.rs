//! One-shot acquisition of the controller hardware block.
//!
//! Exactly one software owner of the USB register block may exist per
//! process: a second owner would silently alias mutable hardware state. The
//! owner is represented by an explicit capability token that constructors
//! consume, never by ambient global state. The once-flag backing the token
//! lives with the caller — in a real integration, storage that the unverified
//! startup code owns for the process lifetime — and taking the token a second
//! time over the same flag fails. The failure is reported as `None` so that
//! the caller can halt startup with its own diagnostic; this library's
//! verified functions never panic.

use vstd::prelude::*;

verus! {

/// The capability to program the USB controller's register block.
pub struct UsbInstance {
    _private: (),
}

impl UsbInstance {
    /// Claim the controller. Succeeds exactly once per flag: the first call
    /// returns the token and marks the flag, every later call fails.
    pub fn take(taken: &mut bool) -> (r: Option<UsbInstance>)
        ensures
            *final(taken),
            r is Some <==> !*old(taken),
    {
        if *taken {
            None
        } else {
            *taken = true;
            Some(UsbInstance { _private: () })
        }
    }
}

} // verus!
