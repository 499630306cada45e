//! Which file extensions the service recognises, and as what.

use vstd::prelude::*;
use crate::text::str_eq;

verus! {

/// What a browsed entry is, as far as the service is concerned.
#[derive(Debug, Clone, Copy, PartialEq, Eq, Structural)]
pub enum FileKind {
    Raw,
    Image,
    Video,
    Other,
    Dir,
}

impl FileKind {
    /// The label under which the kind is reported to clients.
    pub open spec fn label(self) -> Seq<char> {
        match self {
            FileKind::Raw => "raw"@,
            FileKind::Image => "image"@,
            FileKind::Video => "video"@,
            FileKind::Other => "other"@,
            FileKind::Dir => "dir"@,
        }
    }

    /// The label of the kind, as reported to clients.
    pub fn as_str(&self) -> (r: &'static str)
        ensures
            r@ == self.label(),
    {
        match self {
            FileKind::Raw => "raw",
            FileKind::Image => "image",
            FileKind::Video => "video",
            FileKind::Other => "other",
            FileKind::Dir => "dir",
        }
    }
}

/// Camera RAW formats: cr2 cr3 nef arw orf rw2 dng raf pef srw x3f 3fr mrw nrw raw.
pub open spec fn is_raw_ext(e: Seq<char>) -> bool {
    ||| e == "cr2"@
    ||| e == "cr3"@
    ||| e == "nef"@
    ||| e == "arw"@
    ||| e == "orf"@
    ||| e == "rw2"@
    ||| e == "dng"@
    ||| e == "raf"@
    ||| e == "pef"@
    ||| e == "srw"@
    ||| e == "x3f"@
    ||| e == "3fr"@
    ||| e == "mrw"@
    ||| e == "nrw"@
    ||| e == "raw"@
}

/// Ordinary image formats: jpg jpeg png gif bmp webp tiff tif heic heif.
pub open spec fn is_image_ext(e: Seq<char>) -> bool {
    ||| e == "jpg"@
    ||| e == "jpeg"@
    ||| e == "png"@
    ||| e == "gif"@
    ||| e == "bmp"@
    ||| e == "webp"@
    ||| e == "tiff"@
    ||| e == "tif"@
    ||| e == "heic"@
    ||| e == "heif"@
}

/// Video formats: mp4 mov avi mkv 360 webm.
pub open spec fn is_video_ext(e: Seq<char>) -> bool {
    ||| e == "mp4"@
    ||| e == "mov"@
    ||| e == "avi"@
    ||| e == "mkv"@
    ||| e == "360"@
    ||| e == "webm"@
}

/// The kind of a (lowercased) extension; RAW wins over image over video.
pub open spec fn kind_of_extension(e: Seq<char>) -> FileKind {
    if is_raw_ext(e) {
        FileKind::Raw
    } else if is_image_ext(e) {
        FileKind::Image
    } else if is_video_ext(e) {
        FileKind::Video
    } else {
        FileKind::Other
    }
}

/// Every camera RAW extension is recognised as RAW: cr2 cr3 nef arw orf rw2
/// dng raf pef srw x3f 3fr mrw nrw raw.
pub proof fn lemma_raw_extensions_recognised()
    ensures
        is_raw_ext("cr2"@) && kind_of_extension("cr2"@) == FileKind::Raw,
        is_raw_ext("cr3"@) && kind_of_extension("cr3"@) == FileKind::Raw,
        is_raw_ext("nef"@) && kind_of_extension("nef"@) == FileKind::Raw,
        is_raw_ext("arw"@) && kind_of_extension("arw"@) == FileKind::Raw,
        is_raw_ext("orf"@) && kind_of_extension("orf"@) == FileKind::Raw,
        is_raw_ext("rw2"@) && kind_of_extension("rw2"@) == FileKind::Raw,
        is_raw_ext("dng"@) && kind_of_extension("dng"@) == FileKind::Raw,
        is_raw_ext("raf"@) && kind_of_extension("raf"@) == FileKind::Raw,
        is_raw_ext("pef"@) && kind_of_extension("pef"@) == FileKind::Raw,
        is_raw_ext("srw"@) && kind_of_extension("srw"@) == FileKind::Raw,
        is_raw_ext("x3f"@) && kind_of_extension("x3f"@) == FileKind::Raw,
        is_raw_ext("3fr"@) && kind_of_extension("3fr"@) == FileKind::Raw,
        is_raw_ext("mrw"@) && kind_of_extension("mrw"@) == FileKind::Raw,
        is_raw_ext("nrw"@) && kind_of_extension("nrw"@) == FileKind::Raw,
        is_raw_ext("raw"@) && kind_of_extension("raw"@) == FileKind::Raw,
{
}

/// Every ordinary image extension is classified as an image: jpg jpeg png
/// gif bmp webp tiff tif heic heif.
pub proof fn lemma_image_extensions_recognised()
    ensures
        is_image_ext("jpg"@) && kind_of_extension("jpg"@) == FileKind::Image,
        is_image_ext("jpeg"@) && kind_of_extension("jpeg"@) == FileKind::Image,
        is_image_ext("png"@) && kind_of_extension("png"@) == FileKind::Image,
        is_image_ext("gif"@) && kind_of_extension("gif"@) == FileKind::Image,
        is_image_ext("bmp"@) && kind_of_extension("bmp"@) == FileKind::Image,
        is_image_ext("webp"@) && kind_of_extension("webp"@) == FileKind::Image,
        is_image_ext("tiff"@) && kind_of_extension("tiff"@) == FileKind::Image,
        is_image_ext("tif"@) && kind_of_extension("tif"@) == FileKind::Image,
        is_image_ext("heic"@) && kind_of_extension("heic"@) == FileKind::Image,
        is_image_ext("heif"@) && kind_of_extension("heif"@) == FileKind::Image,
{
    reveal_strlit("cr2");
    assert("cr2"@ =~= seq!['c', 'r', '2']);
    reveal_strlit("cr3");
    assert("cr3"@ =~= seq!['c', 'r', '3']);
    reveal_strlit("nef");
    assert("nef"@ =~= seq!['n', 'e', 'f']);
    reveal_strlit("arw");
    assert("arw"@ =~= seq!['a', 'r', 'w']);
    reveal_strlit("orf");
    assert("orf"@ =~= seq!['o', 'r', 'f']);
    reveal_strlit("rw2");
    assert("rw2"@ =~= seq!['r', 'w', '2']);
    reveal_strlit("dng");
    assert("dng"@ =~= seq!['d', 'n', 'g']);
    reveal_strlit("raf");
    assert("raf"@ =~= seq!['r', 'a', 'f']);
    reveal_strlit("pef");
    assert("pef"@ =~= seq!['p', 'e', 'f']);
    reveal_strlit("srw");
    assert("srw"@ =~= seq!['s', 'r', 'w']);
    reveal_strlit("x3f");
    assert("x3f"@ =~= seq!['x', '3', 'f']);
    reveal_strlit("3fr");
    assert("3fr"@ =~= seq!['3', 'f', 'r']);
    reveal_strlit("mrw");
    assert("mrw"@ =~= seq!['m', 'r', 'w']);
    reveal_strlit("nrw");
    assert("nrw"@ =~= seq!['n', 'r', 'w']);
    reveal_strlit("raw");
    assert("raw"@ =~= seq!['r', 'a', 'w']);
    reveal_strlit("jpg");
    assert("jpg"@ =~= seq!['j', 'p', 'g']);
    reveal_strlit("jpeg");
    assert("jpeg"@ =~= seq!['j', 'p', 'e', 'g']);
    reveal_strlit("png");
    assert("png"@ =~= seq!['p', 'n', 'g']);
    reveal_strlit("gif");
    assert("gif"@ =~= seq!['g', 'i', 'f']);
    reveal_strlit("bmp");
    assert("bmp"@ =~= seq!['b', 'm', 'p']);
    reveal_strlit("webp");
    assert("webp"@ =~= seq!['w', 'e', 'b', 'p']);
    reveal_strlit("tiff");
    assert("tiff"@ =~= seq!['t', 'i', 'f', 'f']);
    reveal_strlit("tif");
    assert("tif"@ =~= seq!['t', 'i', 'f']);
    reveal_strlit("heic");
    assert("heic"@ =~= seq!['h', 'e', 'i', 'c']);
    reveal_strlit("heif");
    assert("heif"@ =~= seq!['h', 'e', 'i', 'f']);
}

/// Every video extension is classified as a video: mp4 mov avi mkv 360 webm.
pub proof fn lemma_video_extensions_recognised()
    ensures
        is_video_ext("mp4"@) && kind_of_extension("mp4"@) == FileKind::Video,
        is_video_ext("mov"@) && kind_of_extension("mov"@) == FileKind::Video,
        is_video_ext("avi"@) && kind_of_extension("avi"@) == FileKind::Video,
        is_video_ext("mkv"@) && kind_of_extension("mkv"@) == FileKind::Video,
        is_video_ext("360"@) && kind_of_extension("360"@) == FileKind::Video,
        is_video_ext("webm"@) && kind_of_extension("webm"@) == FileKind::Video,
{
    reveal_strlit("cr2");
    assert("cr2"@ =~= seq!['c', 'r', '2']);
    reveal_strlit("cr3");
    assert("cr3"@ =~= seq!['c', 'r', '3']);
    reveal_strlit("nef");
    assert("nef"@ =~= seq!['n', 'e', 'f']);
    reveal_strlit("arw");
    assert("arw"@ =~= seq!['a', 'r', 'w']);
    reveal_strlit("orf");
    assert("orf"@ =~= seq!['o', 'r', 'f']);
    reveal_strlit("rw2");
    assert("rw2"@ =~= seq!['r', 'w', '2']);
    reveal_strlit("dng");
    assert("dng"@ =~= seq!['d', 'n', 'g']);
    reveal_strlit("raf");
    assert("raf"@ =~= seq!['r', 'a', 'f']);
    reveal_strlit("pef");
    assert("pef"@ =~= seq!['p', 'e', 'f']);
    reveal_strlit("srw");
    assert("srw"@ =~= seq!['s', 'r', 'w']);
    reveal_strlit("x3f");
    assert("x3f"@ =~= seq!['x', '3', 'f']);
    reveal_strlit("3fr");
    assert("3fr"@ =~= seq!['3', 'f', 'r']);
    reveal_strlit("mrw");
    assert("mrw"@ =~= seq!['m', 'r', 'w']);
    reveal_strlit("nrw");
    assert("nrw"@ =~= seq!['n', 'r', 'w']);
    reveal_strlit("raw");
    assert("raw"@ =~= seq!['r', 'a', 'w']);
    reveal_strlit("jpg");
    assert("jpg"@ =~= seq!['j', 'p', 'g']);
    reveal_strlit("jpeg");
    assert("jpeg"@ =~= seq!['j', 'p', 'e', 'g']);
    reveal_strlit("png");
    assert("png"@ =~= seq!['p', 'n', 'g']);
    reveal_strlit("gif");
    assert("gif"@ =~= seq!['g', 'i', 'f']);
    reveal_strlit("bmp");
    assert("bmp"@ =~= seq!['b', 'm', 'p']);
    reveal_strlit("webp");
    assert("webp"@ =~= seq!['w', 'e', 'b', 'p']);
    reveal_strlit("tiff");
    assert("tiff"@ =~= seq!['t', 'i', 'f', 'f']);
    reveal_strlit("tif");
    assert("tif"@ =~= seq!['t', 'i', 'f']);
    reveal_strlit("heic");
    assert("heic"@ =~= seq!['h', 'e', 'i', 'c']);
    reveal_strlit("heif");
    assert("heif"@ =~= seq!['h', 'e', 'i', 'f']);
    reveal_strlit("mp4");
    assert("mp4"@ =~= seq!['m', 'p', '4']);
    reveal_strlit("mov");
    assert("mov"@ =~= seq!['m', 'o', 'v']);
    reveal_strlit("avi");
    assert("avi"@ =~= seq!['a', 'v', 'i']);
    reveal_strlit("mkv");
    assert("mkv"@ =~= seq!['m', 'k', 'v']);
    reveal_strlit("360");
    assert("360"@ =~= seq!['3', '6', '0']);
    reveal_strlit("webm");
    assert("webm"@ =~= seq!['w', 'e', 'b', 'm']);
}

/// Whether `e` is one of the camera RAW extensions (compared exactly).
pub fn is_raw_extension(e: &str) -> (r: bool)
    ensures
        r == is_raw_ext(e@),
{
    str_eq(e, "cr2") || str_eq(e, "cr3") || str_eq(e, "nef") || str_eq(e, "arw") || str_eq(
        e,
        "orf",
    ) || str_eq(e, "rw2") || str_eq(e, "dng") || str_eq(e, "raf") || str_eq(e, "pef") || str_eq(
        e,
        "srw",
    ) || str_eq(e, "x3f") || str_eq(e, "3fr") || str_eq(e, "mrw") || str_eq(e, "nrw") || str_eq(
        e,
        "raw",
    )
}

/// Whether `e` is one of the ordinary image extensions (compared exactly).
pub fn is_image_extension(e: &str) -> (r: bool)
    ensures
        r == is_image_ext(e@),
{
    str_eq(e, "jpg") || str_eq(e, "jpeg") || str_eq(e, "png") || str_eq(e, "gif") || str_eq(
        e,
        "bmp",
    ) || str_eq(e, "webp") || str_eq(e, "tiff") || str_eq(e, "tif") || str_eq(e, "heic")
        || str_eq(e, "heif")
}

/// Whether `e` is one of the video extensions (compared exactly).
pub fn is_video_extension(e: &str) -> (r: bool)
    ensures
        r == is_video_ext(e@),
{
    str_eq(e, "mp4") || str_eq(e, "mov") || str_eq(e, "avi") || str_eq(e, "mkv") || str_eq(
        e,
        "360",
    ) || str_eq(e, "webm")
}

/// The kind of an already lowercased extension.
pub fn classify_extension(e: &str) -> (r: FileKind)
    ensures
        r == kind_of_extension(e@),
{
    if is_raw_extension(e) {
        FileKind::Raw
    } else if is_image_extension(e) {
        FileKind::Image
    } else if is_video_extension(e) {
        FileKind::Video
    } else {
        FileKind::Other
    }
}

} // verus!
