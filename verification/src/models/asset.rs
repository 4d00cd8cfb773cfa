//! Asset response types.

use vstd::prelude::*;

use crate::models::exif::{clone_opt_string, same_exif, same_opt_string, ExifInfo};

verus! {

/// Type of asset (image or video).
#[derive(Clone, Copy, PartialEq, Eq, Structural)]
pub enum AssetType {
    /// Image file (JPEG, PNG, HEIC, etc.)
    Image,

    /// Video file (MP4, MOV, etc.)
    Video,
}

/// Asset snapshot from the Immich API, never mutated locally.
pub struct AssetResponse {
    /// Unique asset identifier
    pub id: String,

    /// Original filename when uploaded
    pub original_file_name: String,

    /// File creation timestamp (UTC)
    pub file_created_at: String,

    /// Local date/time (timezone-aware)
    pub local_date_time: String,

    /// Asset type (image or video)
    pub asset_type: AssetType,

    /// EXIF metadata (may be absent)
    pub exif_info: Option<ExifInfo>,

    /// SHA-1 checksum (base64 encoded)
    pub checksum: String,

    /// Whether the asset is in trash
    pub is_trashed: bool,

    /// Whether the asset is marked as favorite
    pub is_favorite: bool,

    /// Whether the asset is archived
    pub is_archived: bool,

    /// Whether the asset has metadata
    pub has_metadata: bool,

    /// Duration string (e.g., "0:00:00.000000" for images)
    pub duration: String,

    /// Owner user ID
    pub owner_id: String,

    /// Original MIME type (optional)
    pub original_mime_type: Option<String>,

    /// Duplicate group ID (null if not a duplicate)
    pub duplicate_id: Option<String>,

    /// Thumbhash for quick preview (nullable)
    pub thumbhash: Option<String>,
}

/// Whether two optional EXIF blocks agree (both absent, or field for field).
pub open spec fn same_opt_exif(a: Option<ExifInfo>, b: Option<ExifInfo>) -> bool {
    match (a, b) {
        (Option::None, Option::None) => true,
        (Option::Some(x), Option::Some(y)) => same_exif(x, y),
        _ => false,
    }
}

/// Whether two asset snapshots agree field for field (strings by characters).
pub open spec fn same_asset(a: AssetResponse, b: AssetResponse) -> bool {
    &&& a.id@ == b.id@
    &&& a.original_file_name@ == b.original_file_name@
    &&& a.file_created_at@ == b.file_created_at@
    &&& a.local_date_time@ == b.local_date_time@
    &&& a.asset_type == b.asset_type
    &&& same_opt_exif(a.exif_info, b.exif_info)
    &&& a.checksum@ == b.checksum@
    &&& a.is_trashed == b.is_trashed
    &&& a.is_favorite == b.is_favorite
    &&& a.is_archived == b.is_archived
    &&& a.has_metadata == b.has_metadata
    &&& a.duration@ == b.duration@
    &&& a.owner_id@ == b.owner_id@
    &&& same_opt_string(a.original_mime_type, b.original_mime_type)
    &&& same_opt_string(a.duplicate_id, b.duplicate_id)
    &&& same_opt_string(a.thumbhash, b.thumbhash)
}

impl Clone for AssetResponse {
    /// A clone agrees with the original field for field.
    fn clone(&self) -> (r: Self)
        ensures
            same_asset(*self, r),
    {
        let exif_info = match &self.exif_info {
            Option::None => Option::None,
            Option::Some(e) => Option::Some(e.clone()),
        };
        AssetResponse {
            id: self.id.clone(),
            original_file_name: self.original_file_name.clone(),
            file_created_at: self.file_created_at.clone(),
            local_date_time: self.local_date_time.clone(),
            asset_type: self.asset_type,
            exif_info,
            checksum: self.checksum.clone(),
            is_trashed: self.is_trashed,
            is_favorite: self.is_favorite,
            is_archived: self.is_archived,
            has_metadata: self.has_metadata,
            duration: self.duration.clone(),
            owner_id: self.owner_id.clone(),
            original_mime_type: clone_opt_string(&self.original_mime_type),
            duplicate_id: clone_opt_string(&self.duplicate_id),
            thumbhash: clone_opt_string(&self.thumbhash),
        }
    }
}

impl AssetResponse {
    /// Whether this asset has any EXIF metadata.
    pub open spec fn spec_has_exif(&self) -> bool {
        self.exif_info is Some
    }

    /// Returns true if this asset has any EXIF metadata
    #[verifier::when_used_as_spec(spec_has_exif)]
    pub fn has_exif(&self) -> (r: bool)
        ensures
            r == self.spec_has_exif(),
    {
        self.exif_info.is_some()
    }
}

} // verus!
