//! The Resend collector.

use vstd::prelude::*;

verus! {

/// Collects Resend's email quota usage from response headers.
pub struct ResendProvider;

} // verus!
