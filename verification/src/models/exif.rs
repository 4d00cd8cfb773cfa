//! EXIF metadata for an asset.

use vstd::prelude::*;

verus! {

/// EXIF metadata for an asset.
///
/// Most fields are optional as EXIF data may be incomplete or missing.
/// GPS coordinates are held as microdegrees (degrees scaled by 1,000,000),
/// so a difference of 100 microdegrees is 0.0001 degrees.
pub struct ExifInfo {
    /// GPS latitude in microdegrees
    pub latitude: Option<i64>,

    /// GPS longitude in microdegrees
    pub longitude: Option<i64>,

    /// City name from GPS reverse geocoding
    pub city: Option<String>,

    /// State/province from GPS reverse geocoding
    pub state: Option<String>,

    /// Country from GPS reverse geocoding
    pub country: Option<String>,

    /// Timezone of the location
    pub time_zone: Option<String>,

    /// Original capture date/time from EXIF
    pub date_time_original: Option<String>,

    /// Camera manufacturer
    pub make: Option<String>,

    /// Camera model
    pub model: Option<String>,

    /// Lens model
    pub lens_model: Option<String>,

    /// Exposure time (e.g., "1/125")
    pub exposure_time: Option<String>,

    /// ISO sensitivity
    pub iso: Option<u32>,

    /// Image width in pixels
    pub exif_image_width: Option<u32>,

    /// Image height in pixels
    pub exif_image_height: Option<u32>,

    /// File size in bytes
    pub file_size_in_byte: Option<u64>,

    /// Image description/caption
    pub description: Option<String>,

    /// User rating (1-5)
    pub rating: Option<u8>,

    /// Image orientation (e.g., "Rotate 90 CW")
    pub orientation: Option<String>,

    /// File modification date
    pub modify_date: Option<String>,

    /// Projection type for 360 photos
    pub projection_type: Option<String>,
}

/// Whether two optional strings hold the same characters (or are both absent).
pub open spec fn same_opt_string(a: Option<String>, b: Option<String>) -> bool {
    match (a, b) {
        (Option::None, Option::None) => true,
        (Option::Some(x), Option::Some(y)) => x@ == y@,
        _ => false,
    }
}

/// Whether two EXIF blocks agree field for field (strings by characters).
pub open spec fn same_exif(a: ExifInfo, b: ExifInfo) -> bool {
    &&& a.latitude == b.latitude
    &&& a.longitude == b.longitude
    &&& same_opt_string(a.city, b.city)
    &&& same_opt_string(a.state, b.state)
    &&& same_opt_string(a.country, b.country)
    &&& same_opt_string(a.time_zone, b.time_zone)
    &&& same_opt_string(a.date_time_original, b.date_time_original)
    &&& same_opt_string(a.make, b.make)
    &&& same_opt_string(a.model, b.model)
    &&& same_opt_string(a.lens_model, b.lens_model)
    &&& same_opt_string(a.exposure_time, b.exposure_time)
    &&& a.iso == b.iso
    &&& a.exif_image_width == b.exif_image_width
    &&& a.exif_image_height == b.exif_image_height
    &&& a.file_size_in_byte == b.file_size_in_byte
    &&& same_opt_string(a.description, b.description)
    &&& a.rating == b.rating
    &&& same_opt_string(a.orientation, b.orientation)
    &&& same_opt_string(a.modify_date, b.modify_date)
    &&& same_opt_string(a.projection_type, b.projection_type)
}

/// Clones an optional string, keeping its characters.
pub fn clone_opt_string(s: &Option<String>) -> (r: Option<String>)
    ensures
        same_opt_string(*s, r),
        r is Some <==> s is Some,
{
    match s {
        Option::None => Option::None,
        Option::Some(x) => Option::Some(x.clone()),
    }
}

impl Clone for ExifInfo {
    /// A clone agrees with the original field for field.
    fn clone(&self) -> (r: Self)
        ensures
            same_exif(*self, r),
    {
        ExifInfo {
            latitude: self.latitude,
            longitude: self.longitude,
            city: clone_opt_string(&self.city),
            state: clone_opt_string(&self.state),
            country: clone_opt_string(&self.country),
            time_zone: clone_opt_string(&self.time_zone),
            date_time_original: clone_opt_string(&self.date_time_original),
            make: clone_opt_string(&self.make),
            model: clone_opt_string(&self.model),
            lens_model: clone_opt_string(&self.lens_model),
            exposure_time: clone_opt_string(&self.exposure_time),
            iso: self.iso,
            exif_image_width: self.exif_image_width,
            exif_image_height: self.exif_image_height,
            file_size_in_byte: self.file_size_in_byte,
            description: clone_opt_string(&self.description),
            rating: self.rating,
            orientation: clone_opt_string(&self.orientation),
            modify_date: clone_opt_string(&self.modify_date),
            projection_type: clone_opt_string(&self.projection_type),
        }
    }
}

impl ExifInfo {
    /// Whether GPS coordinates are present.
    pub open spec fn spec_has_gps(&self) -> bool {
        self.latitude is Some && self.longitude is Some
    }

    /// Returns true if GPS coordinates are present
    #[verifier::when_used_as_spec(spec_has_gps)]
    pub fn has_gps(&self) -> (r: bool)
        ensures
            r == self.spec_has_gps(),
    {
        self.latitude.is_some() && self.longitude.is_some()
    }

    /// Whether camera make or model is present.
    pub open spec fn spec_has_camera_info(&self) -> bool {
        self.make is Some || self.model is Some
    }

    /// Returns true if camera make/model is present
    #[verifier::when_used_as_spec(spec_has_camera_info)]
    pub fn has_camera_info(&self) -> (r: bool)
        ensures
            r == self.spec_has_camera_info(),
    {
        self.make.is_some() || self.model.is_some()
    }

    /// Whether timezone information is present.
    pub open spec fn spec_has_timezone(&self) -> bool {
        self.time_zone is Some
    }

    /// Returns true if timezone information is present
    #[verifier::when_used_as_spec(spec_has_timezone)]
    pub fn has_timezone(&self) -> (r: bool)
        ensures
            r == self.spec_has_timezone(),
    {
        self.time_zone.is_some()
    }

    /// Whether the original capture time is present.
    pub open spec fn spec_has_capture_time(&self) -> bool {
        self.date_time_original is Some
    }

    /// Returns true if original capture time is present
    #[verifier::when_used_as_spec(spec_has_capture_time)]
    pub fn has_capture_time(&self) -> (r: bool)
        ensures
            r == self.spec_has_capture_time(),
    {
        self.date_time_original.is_some()
    }

    /// Whether lens information is present.
    pub open spec fn spec_has_lens_info(&self) -> bool {
        self.lens_model is Some
    }

    /// Returns true if lens information is present
    #[verifier::when_used_as_spec(spec_has_lens_info)]
    pub fn has_lens_info(&self) -> (r: bool)
        ensures
            r == self.spec_has_lens_info(),
    {
        self.lens_model.is_some()
    }

    /// Whether a location name (city or country) is present.
    pub open spec fn spec_has_location(&self) -> bool {
        self.city is Some || self.country is Some
    }

    /// Returns true if location (city/country) is present
    #[verifier::when_used_as_spec(spec_has_location)]
    pub fn has_location(&self) -> (r: bool)
        ensures
            r == self.spec_has_location(),
    {
        self.city.is_some() || self.country.is_some()
    }
}

} // verus!
