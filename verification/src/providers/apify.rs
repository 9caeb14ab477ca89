//! The Apify collector.

use vstd::prelude::*;

verus! {

/// Collects Apify's monthly usage against a configured credit allowance.
pub struct ApifyProvider;

} // verus!
