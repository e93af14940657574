//! Client library for pod-oriented distributed file-storage gateways.
//!
//! The library holds the verified core of the client: credential
//! handling, request construction (URLs, JSON bodies, multipart field
//! plans), progress tracking for chunked transfers, and decoding of
//! response envelopes. The surrounding I/O (HTTP, local files) lives
//! outside the library and drives it through plain values.

pub mod credential;
pub mod dfs;
pub mod error;
pub mod json;
pub mod lighthouse;
pub mod progress;
pub mod request;
pub mod transfer;

use vstd::prelude::*;

verus! {

/// The number of bytes to report for a transfer that has moved
/// `transferred` bytes so far: capped at the declared total when one
/// is known, so chunk-boundary rounding never makes progress overshoot.
pub open spec fn spec_reported_bytes(transferred: u64, total: Option<u64>) -> u64 {
    match total {
        Some(t) => if transferred <= t { transferred } else { t },
        None => transferred,
    }
}

/// Executable counterpart of [`spec_reported_bytes`].
pub fn reported_bytes(transferred: u64, total: Option<u64>) -> (r: u64)
    ensures
        r == spec_reported_bytes(transferred, total),
{
    match total {
        Some(t) => if transferred <= t { transferred } else { t },
        None => transferred,
    }
}

} // verus!
