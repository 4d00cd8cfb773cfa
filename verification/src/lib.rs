//! Metadata-aware duplicate management for an Immich photo library.
//!
//! The library selects a surviving "winner" asset per duplicate group based on
//! metadata completeness, detects metadata conflicts that should block
//! automatic resolution, and drives the safe execution of the resolution:
//! consolidating metadata, preserving album membership, backing up, and
//! deleting losers under rate and concurrency limits.

pub mod config;
pub mod error;
pub mod executor;
pub mod gate;
pub mod letterbox;
pub mod models;
pub mod scoring;
pub mod testing;
pub mod text;
pub mod upload;

pub use config::{Config, ServerConfig};
pub use error::ImmichError;
pub use executor::{AlbumTransferTally, ConsolidationPlan, GroupPipeline, MetadataUpdate, RetrySchedule};
pub use gate::RateGate;
pub use letterbox::{detect_aspect_ratio, find_letterbox_pairs, AspectRatio, LetterboxPair};
pub use scoring::{
    detect_conflicts, DuplicateAnalysis, MetadataConflict, MetadataScore, ScoredAsset,
};
pub use upload::UploadResponse;
