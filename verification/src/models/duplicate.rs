//! Duplicate group response types.

use vstd::prelude::*;

use crate::models::asset::AssetResponse;

verus! {

/// A group of duplicate assets identified by Immich.
///
/// The group is the read-only source of truth: an opaque group id plus the
/// ordered list of assets the service considers duplicates.
pub struct DuplicateGroup {
    /// Unique identifier for this duplicate group
    pub duplicate_id: String,

    /// Assets in this duplicate group
    pub assets: Vec<AssetResponse>,
}

} // verus!
