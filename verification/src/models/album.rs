//! Album response types.

use vstd::prelude::*;

use crate::models::exif::{clone_opt_string, same_opt_string};

verus! {

/// Album response from the Immich API.
pub struct AlbumResponse {
    /// Unique album identifier
    pub id: String,

    /// Album name
    pub album_name: String,

    /// Album description
    pub description: Option<String>,

    /// Album thumbnail asset ID
    pub album_thumbnail_asset_id: Option<String>,

    /// Owner user ID
    pub owner_id: String,

    /// Asset IDs in this album
    pub asset_ids: Vec<String>,
}

/// Whether two album responses agree field for field (strings by characters).
pub open spec fn same_album(a: AlbumResponse, b: AlbumResponse) -> bool {
    &&& a.id@ == b.id@
    &&& a.album_name@ == b.album_name@
    &&& same_opt_string(a.description, b.description)
    &&& same_opt_string(a.album_thumbnail_asset_id, b.album_thumbnail_asset_id)
    &&& a.owner_id@ == b.owner_id@
    &&& crate::text::seq_views(a.asset_ids@) == crate::text::seq_views(b.asset_ids@)
}

impl Clone for AlbumResponse {
    /// A clone agrees with the original field for field.
    fn clone(&self) -> (r: Self)
        ensures
            same_album(*self, r),
    {
        let mut asset_ids: Vec<String> = Vec::new();
        let n = self.asset_ids.len();
        let mut i: usize = 0;
        while i < n
            invariant
                n == self.asset_ids@.len(),
                i <= n,
                asset_ids@.len() == i,
                forall|k: int| 0 <= k < i ==> asset_ids@[k]@ == self.asset_ids@[k]@,
            decreases n - i,
        {
            asset_ids.push(self.asset_ids[i].clone());
            i = i + 1;
        }
        proof {
            assert(crate::text::seq_views(asset_ids@) =~= crate::text::seq_views(
                self.asset_ids@,
            ));
        }
        AlbumResponse {
            id: self.id.clone(),
            album_name: self.album_name.clone(),
            description: clone_opt_string(&self.description),
            album_thumbnail_asset_id: clone_opt_string(&self.album_thumbnail_asset_id),
            owner_id: self.owner_id.clone(),
            asset_ids,
        }
    }
}

/// Request body for adding assets to an album.
pub struct AddAssetsRequest {
    /// Asset IDs to add
    pub ids: Vec<String>,
}

/// Request body for removing assets from an album.
pub struct RemoveAssetsRequest {
    /// Asset IDs to remove
    pub ids: Vec<String>,
}

} // verus!
