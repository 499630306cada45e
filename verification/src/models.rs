//! The service's records: stored image metadata, the edits applied to an
//! image, and the parameters of export and preview requests.

use vstd::prelude::*;

verus! {

/// A UTC instant: whole seconds since the Unix epoch and the nanoseconds
/// past that second (above 999_999_999 only within a leap second).
#[derive(Debug, Clone, Copy, PartialEq, Eq, Structural)]
pub struct Timestamp {
    pub secs: i64,
    pub nanos: u32,
}

impl Timestamp {
    /// `self` is strictly later than `other`.
    pub open spec fn later_than(self, other: Timestamp) -> bool {
        self.secs > other.secs || (self.secs == other.secs && self.nanos > other.nanos)
    }

    /// Whether `self` is strictly later than `other`.
    pub fn is_later_than(&self, other: &Timestamp) -> (r: bool)
        ensures
            r == self.later_than(*other),
    {
        self.secs > other.secs || (self.secs == other.secs && self.nanos > other.nanos)
    }
}

/// Metadata of an uploaded RAW image.
#[derive(Debug, Clone, PartialEq, Eq)]
pub struct ImageRecord {
    pub id: String,
    pub filename: String,
    pub extension: String,
    pub size_bytes: u64,
    pub created_at: Timestamp,
}

/// Keeps `base` unless `top` is set.
pub open spec fn overlay<T>(base: Option<T>, top: Option<T>) -> Option<T> {
    match top {
        Some(_) => top,
        None => base,
    }
}

/// Edits of an image. The real-valued settings (exposure in EV, white
/// balance in Kelvin, crop fractions) are held as the IEEE-754 bit
/// patterns of their `f64` values, so that they round-trip exactly.
#[derive(Debug, Clone, Copy, PartialEq, Eq)]
pub struct EditParams {
    /// Exposure compensation in EV (-5.0 to +5.0), as `f64` bits.
    pub exposure: Option<u64>,
    /// White balance temperature in Kelvin, as `f64` bits.
    pub white_balance: Option<u64>,
    /// Rotation in degrees (0, 90, 180, 270).
    pub rotation: Option<u32>,
    /// Crop rectangle [x, y, width, height] as fractions 0.0-1.0, as `f64` bits.
    pub crop: Option<[u64; 4]>,
}

/// No edit set at all.
pub open spec fn no_edits() -> EditParams {
    EditParams { exposure: None, white_balance: None, rotation: None, crop: None }
}

/// `base` with every field that `top` sets taken from `top`.
pub open spec fn merged(base: EditParams, top: EditParams) -> EditParams {
    EditParams {
        exposure: overlay(base.exposure, top.exposure),
        white_balance: overlay(base.white_balance, top.white_balance),
        rotation: overlay(base.rotation, top.rotation),
        crop: overlay(base.crop, top.crop),
    }
}

impl Default for EditParams {
    fn default() -> (r: Self)
        ensures
            r == no_edits(),
    {
        EditParams { exposure: None, white_balance: None, rotation: None, crop: None }
    }
}

impl EditParams {
    /// Merge another EditParams on top of self (non-None fields override).
    pub fn merge(&mut self, other: &EditParams)
        ensures
            *final(self) == merged(*old(self), *other),
            final(self).exposure == (if other.exposure is Some { other.exposure } else { old(self).exposure }),
            final(self).white_balance == (if other.white_balance is Some { other.white_balance } else { old(self).white_balance }),
            final(self).rotation == (if other.rotation is Some { other.rotation } else { old(self).rotation }),
            final(self).crop == (if other.crop is Some { other.crop } else { old(self).crop }),
    {
        if other.exposure.is_some() {
            self.exposure = other.exposure;
        }
        if other.white_balance.is_some() {
            self.white_balance = other.white_balance;
        }
        if other.rotation.is_some() {
            self.rotation = other.rotation;
        }
        if other.crop.is_some() {
            self.crop = other.crop;
        }
    }
}

/// Fields are merged independently: each field the update sets takes the
/// update's value, and each field it leaves unset keeps the stored value,
/// whatever the other fields of either side are.
pub proof fn lemma_merge_fieldwise(a: EditParams, b: EditParams)
    ensures
        b.exposure is Some ==> merged(a, b).exposure == b.exposure,
        b.exposure is None ==> merged(a, b).exposure == a.exposure,
        b.white_balance is Some ==> merged(a, b).white_balance == b.white_balance,
        b.white_balance is None ==> merged(a, b).white_balance == a.white_balance,
        b.rotation is Some ==> merged(a, b).rotation == b.rotation,
        b.rotation is None ==> merged(a, b).rotation == a.rotation,
        b.crop is Some ==> merged(a, b).crop == b.crop,
        b.crop is None ==> merged(a, b).crop == a.crop,
{
}

/// Merging an empty set of edits changes nothing.
pub proof fn lemma_merge_empty_right(a: EditParams)
    ensures
        merged(a, no_edits()) == a,
{
}

/// Merging onto no edits yields the incoming edits.
pub proof fn lemma_merge_empty_left(b: EditParams)
    ensures
        merged(no_edits(), b) == b,
{
}

/// Merging the same edits twice is the same as merging them once.
pub proof fn lemma_merge_idempotent(a: EditParams, b: EditParams)
    ensures
        merged(merged(a, b), b) == merged(a, b),
        merged(a, a) == a,
{
}

/// Two updates applied one after the other equal one update by their merge.
pub proof fn lemma_merge_associative(a: EditParams, b: EditParams, c: EditParams)
    ensures
        merged(merged(a, b), c) == merged(a, merged(b, c)),
{
}

/// An update that sets every field replaces the stored edits entirely.
pub proof fn lemma_merge_full_update_replaces(a: EditParams, b: EditParams)
    requires
        b.exposure is Some,
        b.white_balance is Some,
        b.rotation is Some,
        b.crop is Some,
    ensures
        merged(a, b) == b,
{
}

/// Output encoding of an export.
#[derive(Debug, Clone, Copy, PartialEq, Eq, Structural)]
pub enum ExportFormat {
    Jpeg,
    Png,
}

impl ExportFormat {
    /// MIME type of the format.
    pub open spec fn mime(self) -> Seq<char> {
        match self {
            ExportFormat::Jpeg => "image/jpeg"@,
            ExportFormat::Png => "image/png"@,
        }
    }

    /// File extension of the format.
    pub open spec fn ext(self) -> Seq<char> {
        match self {
            ExportFormat::Jpeg => "jpg"@,
            ExportFormat::Png => "png"@,
        }
    }

    /// The `Content-Type` of an export in this format.
    pub fn content_type(&self) -> (r: &'static str)
        ensures
            r@ == self.mime(),
    {
        match self {
            ExportFormat::Jpeg => "image/jpeg",
            ExportFormat::Png => "image/png",
        }
    }

    /// The file extension of an export in this format.
    pub fn file_extension(&self) -> (r: &'static str)
        ensures
            r@ == self.ext(),
    {
        match self {
            ExportFormat::Jpeg => "jpg",
            ExportFormat::Png => "png",
        }
    }

    /// The `Content-Disposition` of an export: an attachment named `export.<ext>`.
    pub fn content_disposition(&self) -> (r: String)
        ensures
            r@ == "attachment; filename=\"export."@ + self.ext() + "\""@,
    {
        let mut s = String::from_str("attachment; filename=\"export.");
        s.append(self.file_extension());
        s.append("\"");
        s
    }
}

/// Format used when an export request names none.
pub fn default_format() -> (r: ExportFormat)
    ensures
        r == ExportFormat::Jpeg,
{
    ExportFormat::Jpeg
}

/// JPEG quality used when an export request names none.
pub fn default_quality() -> (r: u8)
    ensures
        r == 92,
{
    92
}

/// An export request: format, JPEG quality and optional bounding box.
#[derive(Debug, Clone, Copy, PartialEq, Eq)]
pub struct ExportRequest {
    pub format: ExportFormat,
    pub quality: u8,
    pub width: Option<u32>,
    pub height: Option<u32>,
}

impl ExportRequest {
    /// The bounding box handed to RAW processing; 0 means unbounded.
    pub fn max_dimensions(&self) -> (r: (usize, usize))
        ensures
            r.0 as int == match self.width {
                Some(w) => w as int,
                None => 0,
            },
            r.1 as int == match self.height {
                Some(h) => h as int,
                None => 0,
            },
    {
        let w: u32 = match self.width {
            Some(w) => w,
            None => 0,
        };
        let h: u32 = match self.height {
            Some(h) => h,
            None => 0,
        };
        (w as usize, h as usize)
    }
}

/// A preview request: the bounding box of the preview.
#[derive(Debug, Clone, Copy, PartialEq, Eq)]
pub struct PreviewQuery {
    pub width: u32,
    pub height: u32,
}

/// Preview width used when a request names none.
pub fn default_preview_width() -> (r: u32)
    ensures
        r == 800,
{
    800
}

/// Preview height used when a request names none.
pub fn default_preview_height() -> (r: u32)
    ensures
        r == 600,
{
    600
}

} // verus!
