//! API data model types.
//!
//! These types mirror the Immich API response DTOs, holding GPS coordinates
//! as integer microdegrees so that the comparison logic over them is exact.

pub mod album;
pub mod asset;
pub mod duplicate;
pub mod execution;
pub mod exif;

pub use album::{AddAssetsRequest, AlbumResponse, RemoveAssetsRequest};
pub use asset::{AssetResponse, AssetType};
pub use duplicate::DuplicateGroup;
pub use exif::ExifInfo;
pub use execution::{
    AlbumTransferResult, ConsolidationResult, ExecutionConfig, ExecutionReport, GroupResult,
    OperationResult,
};
