//! Serving media of mesh devices: which device a request names, how a file
//! is decoded and what content type it is streamed with.

use vstd::prelude::*;
use crate::browse::{after_last_dot, device_not_found, file_kind, find_device, first_device_match};
use crate::error::AppError;
use crate::formats::{is_raw_ext, is_raw_extension, FileKind};
use crate::paths::{extension_of, file_name_of, path_extension};
use crate::salita_client::{device_url_of, DeviceInfo, SalitaClient};
use crate::text::{after_last, last_index_of, lemma_last_index_of_bounds, to_lowercase, unicode_lowercase};

verus! {

/// JPEG quality of thumbnails.
pub const THUMBNAIL_QUALITY: u8 = 80;

/// JPEG quality of full-size previews of mesh files.
pub const PREVIEW_QUALITY: u8 = 90;

/// Bounding box (in both directions) of full-size previews of mesh files.
pub const PREVIEW_MAX_DIM: u32 = 2048;

/// Thumbnail bounding box used when a request names none.
pub fn default_thumb_size() -> (r: u32)
    ensures
        r == 300,
{
    300
}

/// A path names a RAW file: the text after its last `.`, lowercased, is a
/// RAW extension.
pub open spec fn raw_path(path: Seq<char>) -> bool {
    is_raw_ext(unicode_lowercase(after_last(path, '.')))
}

/// Whether `path` names a camera RAW file, which is decoded by the RAW pipeline.
pub fn is_raw(path: &str) -> (r: bool)
    ensures
        r == raw_path(path@),
{
    let ext = to_lowercase(after_last_dot(path));
    is_raw_extension(ext.as_str())
}

/// A file is decoded as RAW exactly when browsing lists it as "raw".
pub proof fn lemma_raw_iff_listed_raw(name: Seq<char>)
    ensures
        raw_path(name) <==> file_kind(name) == FileKind::Raw,
{
}

/// An upload name (a bare file name, without directories) that the store
/// accepts as a RAW file is also decoded as RAW when served from the mesh.
pub proof fn lemma_accepted_upload_is_raw(filename: Seq<char>)
    requires
        !filename.contains('/'),
        path_extension(filename) is Some,
        is_raw_ext(unicode_lowercase(path_extension(filename)->0)),
    ensures
        raw_path(filename),
{
    lemma_last_index_of_bounds(filename, '/');
    if last_index_of(filename, '/') >= 0 {
        assert(filename.contains('/'));
    }
    assert(filename.subrange(0, filename.len() as int) =~= filename);
    assert(file_name_of(filename) == Some(filename));
}

/// The device a request names and the base URL to fetch its files from.
pub fn resolve_device(client: &SalitaClient, devices: &Vec<DeviceInfo>, device_id: &str) -> (r:
    Result<(String, String), AppError>)
    ensures
        first_device_match(devices@, device_id@) < devices@.len() ==> (r matches Ok((id, url))
            && id@ == devices@[first_device_match(devices@, device_id@)].id@ && url@
            == device_url_of(client.base(), devices@[first_device_match(devices@, device_id@)])),
        first_device_match(devices@, device_id@) >= devices@.len() ==> (r matches Err(
            AppError::NotFound(m),
        ) && m@ == "Device not found: "@ + device_id@),
{
    match find_device(devices, device_id) {
        Some(d) => Ok((d.id.clone(), client.device_url(d))),
        None => Err(device_not_found(device_id)),
    }
}

/// What `mime_guess::from_path(path).first_or_octet_stream()` renders to.
pub uninterp spec fn guessed_mime(path: Seq<char>) -> Seq<char>;

/// `mime_guess::from_path(path).first_or_octet_stream().to_string()`: the
/// MIME type registered for the path's extension. A path without an
/// extension, or with an empty one, has no guess and gets
/// `application/octet-stream`; which type each extension maps to is
/// mime_guess's table and is not stated here.
#[verifier::external_body]
fn guess_mime(path: &str) -> (r: String)
    ensures
        r@ == guessed_mime(path@),
        (path_extension(path@) is None || path_extension(path@) == Some(Seq::<char>::empty())) ==> r@
            == "application/octet-stream"@,
{
    mime_guess::from_path(path).first_or_octet_stream().to_string()
}

/// The `Content-Type` a streamed file is served with.
pub fn stream_content_type(path: &str) -> (r: String)
    ensures
        r@ == guessed_mime(path@),
        (path_extension(path@) is None || path_extension(path@) == Some(Seq::<char>::empty())) ==> r@
            == "application/octet-stream"@,
{
    guess_mime(path)
}

} // verus!
