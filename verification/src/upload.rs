//! Upload support: the pure pieces of the asset upload path.
//!
//! Backup files are named `{assetId}_{originalName}`; on restore the id
//! prefix is stripped so the server sees the original filename, and the
//! MIME type is chosen from the file extension.

use vstd::prelude::*;

use crate::text::str_eq;

verus! {

/// Response from the Immich upload endpoint.
pub struct UploadResponse {
    /// The ID of the newly created asset
    pub id: String,

    /// Whether this was a duplicate of an existing asset
    pub duplicate: bool,
}

/// Whether a character may occur in the UUID prefix of a backup filename:
/// a hexadecimal digit or a dash.
pub open spec fn is_uuid_char(c: char) -> bool {
    ('0' <= c && c <= '9') || ('a' <= c && c <= 'f') || ('A' <= c && c <= 'F') || c == '-'
}

/// Whether a filename starts with a UUID prefix followed by an underscore:
/// more than 37 characters, an underscore at position 36, and only
/// hexadecimal digits and dashes before it.
pub open spec fn has_uuid_prefix(name: Seq<char>) -> bool {
    name.len() > 37 && name[36] == '_' && (forall|k: int|
        0 <= k < 36 ==> is_uuid_char(#[trigger] name[k]))
}

/// The original filename of a backup file: the UUID prefix is stripped when
/// present, otherwise the name is kept whole.
pub open spec fn spec_original_name(name: Seq<char>) -> Seq<char> {
    if has_uuid_prefix(name) {
        name.subrange(37, name.len() as int)
    } else {
        name
    }
}

/// Strip the `{uuid}_` prefix that backup filenames carry, keeping other
/// names unchanged.
pub fn strip_asset_id_prefix(name: &str) -> (r: String)
    ensures
        r@ == spec_original_name(name@),
{
    let n = name.unicode_len();
    if n <= 37 {
        return name.to_owned();
    }
    if name.get_char(36) != '_' {
        return name.to_owned();
    }
    let mut k: usize = 0;
    while k < 36
        invariant
            n == name@.len(),
            n > 37,
            k <= 36,
            forall|m: int| 0 <= m < k ==> is_uuid_char(#[trigger] name@[m]),
        decreases 36 - k,
    {
        let c = name.get_char(k);
        if !(('0' <= c && c <= '9') || ('a' <= c && c <= 'f') || ('A' <= c && c <= 'F') || c
            == '-') {
            return name.to_owned();
        }
        k = k + 1;
    }
    name.substring_char(37, n).to_owned()
}

/// The MIME type for a lowercase file extension, `application/octet-stream`
/// for anything unrecognised.
pub open spec fn spec_mime_for_extension(ext: Seq<char>) -> Seq<char> {
    if ext == "jpg"@ || ext == "jpeg"@ {
        "image/jpeg"@
    } else if ext == "png"@ {
        "image/png"@
    } else if ext == "gif"@ {
        "image/gif"@
    } else if ext == "webp"@ {
        "image/webp"@
    } else if ext == "heic"@ || ext == "heif"@ {
        "image/heic"@
    } else if ext == "mp4"@ {
        "video/mp4"@
    } else if ext == "mov"@ {
        "video/quicktime"@
    } else if ext == "avi"@ {
        "video/x-msvideo"@
    } else if ext == "webm"@ {
        "video/webm"@
    } else {
        "application/octet-stream"@
    }
}

/// Choose the MIME type to upload with, from the lowercase file extension.
pub fn mime_for_extension(ext: &str) -> (r: &'static str)
    ensures
        r@ == spec_mime_for_extension(ext@),
{
    if str_eq(ext, "jpg") || str_eq(ext, "jpeg") {
        "image/jpeg"
    } else if str_eq(ext, "png") {
        "image/png"
    } else if str_eq(ext, "gif") {
        "image/gif"
    } else if str_eq(ext, "webp") {
        "image/webp"
    } else if str_eq(ext, "heic") || str_eq(ext, "heif") {
        "image/heic"
    } else if str_eq(ext, "mp4") {
        "video/mp4"
    } else if str_eq(ext, "mov") {
        "video/quicktime"
    } else if str_eq(ext, "avi") {
        "video/x-msvideo"
    } else if str_eq(ext, "webm") {
        "video/webm"
    } else {
        "application/octet-stream"
    }
}

} // verus!
