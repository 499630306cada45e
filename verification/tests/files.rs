use std::path::Path;

use hilaw::browse::{after_last_dot, classify_file};
use hilaw::error::AppError;
use hilaw::formats::{classify_extension, FileKind};
use hilaw::media::{is_raw, stream_content_type};
use hilaw::paths::extension;
use hilaw::storage::{image_not_found, original_file_name, preview_file_name, validate_raw_extension};

const PATHS: &[&str] = &[
    "a.cr2", "a.CR2", ".cr2", "a.", "a", "", ".", "..", "/", "//", "dir.x/file",
    "foo.tar.gz", "foo.txt/.", "foo.txt/..", "foo.txt/", "foo.txt//./", "a/.b", "a/..b",
    "..x", "./a.nef", "/tmp/photo.dng", "x/y/z.", "a.b.c.", "...", ".a.b", "dir/.",
    "ünïcödé.NEF", "a/./b.raw", "a/b/../c.arw",
];

#[test]
fn extension_agrees_with_std_path() {
    for p in PATHS {
        let expected = Path::new(p).extension().map(|e| e.to_str().unwrap());
        assert_eq!(extension(p), expected, "path {:?}", p);
    }
}

#[test]
fn after_last_dot_agrees_with_rsplit() {
    for p in PATHS {
        assert_eq!(after_last_dot(p), p.rsplit('.').next().unwrap_or(""), "path {:?}", p);
    }
}

#[test]
fn validate_accepts_raw_in_any_case() {
    assert_eq!(validate_raw_extension("IMG_0001.CR2"), Ok("cr2".to_string()));
    assert_eq!(validate_raw_extension("unknown.raw"), Ok("raw".to_string()));
    assert_eq!(validate_raw_extension("/shots/a.b.Nef"), Ok("nef".to_string()));
    assert_eq!(validate_raw_extension("x.3FR"), Ok("3fr".to_string()));
}

#[test]
fn validate_rejects_missing_extension() {
    let no_ext = Err(AppError::BadRequest("File has no extension".to_string()));
    assert_eq!(validate_raw_extension("photo"), no_ext);
    assert_eq!(validate_raw_extension(".nef"), no_ext);
    assert_eq!(validate_raw_extension("photo.nef/.."), no_ext);
    assert_eq!(validate_raw_extension(""), no_ext);
}

#[test]
fn validate_rejects_other_formats() {
    assert_eq!(
        validate_raw_extension("holiday.JPG"),
        Err(AppError::BadRequest("Unsupported file format: .jpg".to_string()))
    );
    assert_eq!(
        validate_raw_extension("photo."),
        Err(AppError::BadRequest("Unsupported file format: .".to_string()))
    );
    assert_eq!(
        validate_raw_extension("dir.cr2/file"),
        Err(AppError::BadRequest("File has no extension".to_string()))
    );
}

#[test]
fn classify_by_extension_lists() {
    assert_eq!(classify_file("IMG_1.NEF"), "raw");
    assert_eq!(classify_file("pic.jpeg"), "image");
    assert_eq!(classify_file("pic.HEIF"), "image");
    assert_eq!(classify_file("clip.360"), "video");
    assert_eq!(classify_file("clip.WebM"), "video");
    assert_eq!(classify_file("notes.txt"), "other");
    assert_eq!(classify_file("README"), "other");
    assert_eq!(classify_file("raw"), "raw");
    assert_eq!(classify_file("archive.tar.gz"), "other");
}

#[test]
fn classify_lowercases_with_unicode_rules() {
    // U+212A KELVIN SIGN lowercases to an ASCII 'k'.
    assert_eq!(classify_file("clip.m\u{212A}v"), "video");
    assert_eq!(classify_extension("mkv"), FileKind::Video);
    assert_eq!(classify_extension("MKV"), FileKind::Other);
}

#[test]
fn kind_labels() {
    assert_eq!(FileKind::Raw.as_str(), "raw");
    assert_eq!(FileKind::Image.as_str(), "image");
    assert_eq!(FileKind::Video.as_str(), "video");
    assert_eq!(FileKind::Other.as_str(), "other");
    assert_eq!(FileKind::Dir.as_str(), "dir");
}

#[test]
fn is_raw_matches_listing() {
    for name in ["a.dng", "b.ARW", "c.jpg", "d", "e.raw", "f.Rw2", ".srw", "g.x3f", "h.mrw.png"] {
        assert_eq!(is_raw(name), classify_file(name) == "raw", "name {:?}", name);
    }
    assert!(is_raw("/DCIM/100/IMG.PEF"));
    assert!(!is_raw("/DCIM/100/IMG.JPG"));
}

#[test]
fn stream_content_types() {
    assert_eq!(stream_content_type("a/b.jpg"), "image/jpeg");
    assert_eq!(stream_content_type("movie.MP4"), "video/mp4");
    assert_eq!(stream_content_type("noext"), "application/octet-stream");
    assert_eq!(stream_content_type("trailing."), "application/octet-stream");
}

#[test]
fn stored_file_names() {
    assert_eq!(original_file_name("cr2"), "original.cr2");
    assert_eq!(preview_file_name(800, 600), "preview_800x600.jpg");
    assert_eq!(preview_file_name(0, 4294967295), "preview_0x4294967295.jpg");
    assert_eq!(preview_file_name(10, 7), "preview_10x7.jpg");
}

#[test]
fn missing_image_message() {
    assert_eq!(image_not_found("abc"), AppError::NotFound("Image abc not found".to_string()));
}

#[test]
fn accepted_upload_names_are_served_as_raw() {
    for name in ["a.CR2", "b.nef", "x.y.Dng", "c.", ".nef", "d.jpg", "RAW", "e.raw", "..arw"] {
        if validate_raw_extension(name).is_ok() {
            assert!(is_raw(name), "name {:?}", name);
        }
    }
    assert!(!is_raw("c.") && validate_raw_extension("c.").is_err());
}
