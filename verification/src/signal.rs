//! Signal-handler sentinel values.
//!
//! The kernel ABI encodes two special handler dispositions as
//! function-pointer-shaped sentinels: the null value for "default
//! disposition" and the pointer value 1 for "explicitly ignore". The value 1
//! is never a callable function; it exists only so kernel-facing interfaces
//! can compare handler identities. Here the two dispositions are a tagged
//! enumeration; the raw sentinel word crosses into or out of this form only
//! at the kernel-facing boundary.

use vstd::prelude::*;

verus! {

/// A signal-handler disposition that carries no callable handler.
#[derive(Clone, Copy, PartialEq, Eq, Structural, Debug)]
pub enum SigHandler {
    /// Default disposition: no handler installed (the ABI's null sentinel).
    Default,
    /// Explicitly ignore the signal (the ABI's sentinel word 1, never a
    /// callable function).
    Ignore,
}

/// Raw sentinel word for the default disposition.
pub const SIG_DFL_RAW: u64 = 0;

/// Raw sentinel word for the ignore disposition.
pub const SIG_IGN_RAW: u64 = 1;

impl SigHandler {
    /// The raw sentinel word this disposition crosses the ABI boundary as.
    pub open spec fn spec_raw(self) -> u64 {
        match self {
            SigHandler::Default => SIG_DFL_RAW,
            SigHandler::Ignore => SIG_IGN_RAW,
        }
    }

    /// Returns the raw sentinel word for this disposition.
    pub fn raw(&self) -> (r: u64)
        ensures
            r == self.spec_raw(),
    {
        match self {
            SigHandler::Default => SIG_DFL_RAW,
            SigHandler::Ignore => SIG_IGN_RAW,
        }
    }

    /// The disposition a raw handler word denotes, if it is one of the two
    /// sentinels.
    pub open spec fn spec_from_raw(v: u64) -> Option<SigHandler> {
        if v == SIG_DFL_RAW {
            Some(SigHandler::Default)
        } else if v == SIG_IGN_RAW {
            Some(SigHandler::Ignore)
        } else {
            None
        }
    }

    /// Reads a raw handler word back into a disposition: exactly the two
    /// sentinel words are accepted.
    pub fn from_raw(v: u64) -> (r: Option<SigHandler>)
        ensures
            r == SigHandler::spec_from_raw(v),
            v == SIG_DFL_RAW ==> r == Some(SigHandler::Default),
            v == SIG_IGN_RAW ==> r == Some(SigHandler::Ignore),
            v > SIG_IGN_RAW ==> r is None,
    {
        if v == SIG_DFL_RAW {
            Some(SigHandler::Default)
        } else if v == SIG_IGN_RAW {
            Some(SigHandler::Ignore)
        } else {
            None
        }
    }
}

/// The "default disposition" sentinel.
pub fn SIG_DFL() -> (r: SigHandler)
    ensures
        r == SigHandler::Default,
        r.spec_raw() == SIG_DFL_RAW,
{
    SigHandler::Default
}

/// The "ignore signal" sentinel. The value it stands for must never be
/// invoked as a function; it is only compared against kernel handler words.
pub fn sig_ign() -> (r: SigHandler)
    ensures
        r == SigHandler::Ignore,
        r.spec_raw() == SIG_IGN_RAW,
{
    SigHandler::Ignore
}

/// The two sentinel dispositions round-trip through their raw words.
pub proof fn lemma_raw_round_trip(h: SigHandler)
    ensures
        SigHandler::spec_from_raw(h.spec_raw()) == Some(h),
{
}

} // verus!
