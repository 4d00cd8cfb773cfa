//! Test image specifications for integration tests.
//!
//! Describes the synthetic images (dimensions, colour, EXIF metadata) that
//! make up the fixtures. Rendering the images and embedding the metadata is
//! the caller's business; the library only defines the specifications.

use vstd::prelude::*;

verus! {

/// Transform specification for creating image variants from a base photo.
///
/// All fixtures in a duplicate group should use the same base image with
/// different transforms (size, quality) so that similarity detection sees
/// them as duplicates.
pub struct TransformSpec {
    /// Base image filename
    pub base_image: String,
    /// Target width in pixels (absent: keep the base image width)
    pub width: Option<u32>,
    /// Target height in pixels (absent: scale proportionally from width)
    pub height: Option<u32>,
    /// JPEG quality 1-100 (default 85)
    pub quality: u8,
    /// Strip dimension EXIF tags (for testing missing dimensions)
    pub strip_dimensions: bool,
}

impl TransformSpec {
    /// Create a new transform spec with default quality.
    pub fn new(base_image: &str) -> (r: Self)
        ensures
            r.base_image@ == base_image@,
            r.width is None,
            r.height is None,
            r.quality == 85,
            !r.strip_dimensions,
    {
        TransformSpec {
            base_image: base_image.to_owned(),
            width: Option::None,
            height: Option::None,
            quality: 85,
            strip_dimensions: false,
        }
    }

    /// Set target dimensions.
    pub fn with_size(self, width: u32, height: u32) -> (r: Self)
        ensures
            r.base_image@ == self.base_image@,
            r.width == Option::Some(width),
            r.height == Option::Some(height),
            r.quality == self.quality,
            r.strip_dimensions == self.strip_dimensions,
    {
        TransformSpec { width: Option::Some(width), height: Option::Some(height), ..self }
    }

    /// Scale to a percentage of the original size: the percentage is stored
    /// as the width, with no height, to signal proportional scaling.
    pub fn with_scale(self, scale_percent: u32) -> (r: Self)
        ensures
            r.base_image@ == self.base_image@,
            r.width == Option::Some(scale_percent),
            r.height is None,
            r.quality == self.quality,
            r.strip_dimensions == self.strip_dimensions,
    {
        TransformSpec { width: Option::Some(scale_percent), height: Option::None, ..self }
    }

    /// Set JPEG quality.
    pub fn with_quality(self, quality: u8) -> (r: Self)
        ensures
            r.base_image@ == self.base_image@,
            r.width == self.width,
            r.height == self.height,
            r.quality == quality,
            r.strip_dimensions == self.strip_dimensions,
    {
        TransformSpec { quality, ..self }
    }

    /// Strip dimension EXIF tags from the output.
    pub fn without_dimensions(self) -> (r: Self)
        ensures
            r.base_image@ == self.base_image@,
            r.width == self.width,
            r.height == self.height,
            r.quality == self.quality,
            r.strip_dimensions,
    {
        TransformSpec { strip_dimensions: true, ..self }
    }
}

impl Default for TransformSpec {
    /// The default transform takes the landscape base image unchanged.
    fn default() -> (r: Self)
        ensures
            r.base_image@ == "base_landscape.jpg"@,
            r.width is None,
            r.height is None,
            r.quality == 85,
            !r.strip_dimensions,
    {
        TransformSpec::new("base_landscape.jpg")
    }
}

/// The shape of a synthetic image: dimensions to record (absent when the
/// fixture tests missing dimensions) and a fill colour.
pub struct ImageSpec {
    /// Recorded width in pixels, if any
    pub width: Option<u32>,
    /// Recorded height in pixels, if any
    pub height: Option<u32>,
    /// Fill colour as red, green, blue
    pub color: [u8; 3],
}

/// EXIF metadata specification for a synthetic image. GPS coordinates are
/// held in microdegrees; the capture time is an EXIF-formatted string
/// (`YYYY:MM:DD HH:MM:SS`).
pub struct ExifSpec {
    /// GPS coordinates (latitude, longitude) in microdegrees
    pub gps: Option<(i64, i64)>,
    /// Capture datetime, EXIF-formatted
    pub datetime: Option<String>,
    /// Timezone string (e.g., "+05:00")
    pub timezone: Option<String>,
    /// Camera manufacturer
    pub camera_make: Option<String>,
    /// Camera model
    pub camera_model: Option<String>,
    /// Image description
    pub description: Option<String>,
}

impl Default for ExifSpec {
    /// The default EXIF specification carries nothing.
    fn default() -> (r: Self)
        ensures
            r.gps is None,
            r.datetime is None,
            r.timezone is None,
            r.camera_make is None,
            r.camera_model is None,
            r.description is None,
    {
        ExifSpec {
            gps: Option::None,
            datetime: Option::None,
            timezone: Option::None,
            camera_make: Option::None,
            camera_model: Option::None,
            description: Option::None,
        }
    }
}

/// Complete test image specification: filename, shape, and EXIF metadata.
pub struct TestImage {
    /// Output filename
    pub filename: String,
    /// Shape of the synthetic image
    pub image_spec: ImageSpec,
    /// EXIF metadata to embed
    pub exif_spec: ExifSpec,
}

impl TestImage {
    /// Create a new test image specification with empty metadata.
    pub fn new(filename: &str, image_spec: ImageSpec) -> (r: Self)
        ensures
            r.filename@ == filename@,
            r.image_spec == image_spec,
            r.exif_spec.gps is None,
            r.exif_spec.datetime is None,
            r.exif_spec.timezone is None,
            r.exif_spec.camera_make is None,
            r.exif_spec.camera_model is None,
            r.exif_spec.description is None,
    {
        TestImage {
            filename: filename.to_owned(),
            image_spec,
            exif_spec: ExifSpec {
                gps: Option::None,
                datetime: Option::None,
                timezone: Option::None,
                camera_make: Option::None,
                camera_model: Option::None,
                description: Option::None,
            },
        }
    }

    /// Add EXIF metadata.
    pub fn with_exif(self, exif_spec: ExifSpec) -> (r: Self)
        ensures
            r.filename@ == self.filename@,
            r.image_spec == self.image_spec,
            r.exif_spec == exif_spec,
    {
        TestImage { exif_spec, ..self }
    }
}

} // verus!
