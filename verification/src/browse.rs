//! Browsing the mesh: finding a device, classifying the files it lists and
//! cutting a listing into pages.

use vstd::prelude::*;
use crate::error::AppError;
use crate::formats::{classify_extension, kind_of_extension, FileKind};
use crate::salita_client::{DeviceInfo, FileEntry, NodeInfo};
use crate::text::{after_last, lemma_last_index_of_bounds, rfind_char, str_eq, to_lowercase, unicode_lowercase};

verus! {

/// Query of a browse request.
#[derive(Debug, Clone, PartialEq, Eq)]
pub struct BrowseParams {
    pub device: String,
    pub dir: String,
    pub path: String,
    pub offset: usize,
    pub limit: usize,
}

/// First entry returned when a request names no offset.
pub fn default_offset() -> (r: usize)
    ensures
        r == 0,
{
    0
}

/// Page size used when a request names none.
pub fn default_limit() -> (r: usize)
    ensures
        r == 100,
{
    100
}

/// The kind of a file by its name: the text after the last `.` (the whole
/// name if there is none), lowercased, looked up among the known extensions.
pub open spec fn file_kind(name: Seq<char>) -> FileKind {
    kind_of_extension(unicode_lowercase(after_last(name, '.')))
}

/// The text after the last `.` of `s` (all of `s` if it has none).
pub fn after_last_dot(s: &str) -> (r: &str)
    ensures
        r@ == after_last(s@, '.'),
{
    let n = s.unicode_len();
    assert(s@.subrange(0, n as int) =~= s@);
    proof {
        lemma_last_index_of_bounds(s@, '.');
    }
    let start: usize = match rfind_char(s, '.', n) {
        Some(k) => k + 1,
        None => 0,
    };
    s.substring_char(start, n)
}

/// Classify a file name as "raw", "image", "video" or "other".
pub fn classify_file(name: &str) -> (r: &'static str)
    ensures
        r@ == file_kind(name@).label(),
{
    let ext = to_lowercase(after_last_dot(name));
    classify_extension(ext.as_str()).as_str()
}

/// A listing entry as shown to the client.
#[derive(Debug, Clone, PartialEq, Eq)]
pub struct BrowseEntry {
    pub name: String,
    pub path: String,
    pub is_dir: bool,
    pub size: u64,
    pub modified: Option<String>,
    pub file_type: &'static str,
}

/// The kind reported for a listed file: directories are "dir", files go by name.
pub open spec fn entry_kind(f: FileEntry) -> FileKind {
    if f.is_dir {
        FileKind::Dir
    } else {
        file_kind(f.name@)
    }
}

/// `e` shows the listed file `f`.
pub open spec fn describes(e: BrowseEntry, f: FileEntry) -> bool {
    &&& e.name == f.name
    &&& e.path == f.path
    &&& e.is_dir == f.is_dir
    &&& e.size == f.size
    &&& e.modified == f.modified
    &&& e.file_type@ == entry_kind(f).label()
}

/// An entry that shows a listed file carries that file's name, path, kind
/// of entry, size and modification time unchanged, and is labelled "dir"
/// exactly for directories.
pub proof fn lemma_entry_carries_file(e: BrowseEntry, f: FileEntry)
    requires
        describes(e, f),
    ensures
        e.name == f.name,
        e.path == f.path,
        e.is_dir == f.is_dir,
        e.size == f.size,
        e.modified == f.modified,
        f.is_dir ==> e.file_type@ == FileKind::Dir.label(),
        !f.is_dir ==> e.file_type@ == file_kind(f.name@).label(),
{
}

/// The entry shown for a listed file.
pub fn browse_entry(f: FileEntry) -> (r: BrowseEntry)
    ensures
        describes(r, f),
        r.name == f.name,
        r.path == f.path,
        r.is_dir == f.is_dir,
        r.size == f.size,
        r.modified == f.modified,
        f.is_dir ==> r.file_type@ == FileKind::Dir.label(),
        !f.is_dir ==> r.file_type@ == file_kind(f.name@).label(),
{
    let file_type = if f.is_dir {
        "dir"
    } else {
        classify_file(f.name.as_str())
    };
    BrowseEntry {
        name: f.name,
        path: f.path,
        is_dir: f.is_dir,
        size: f.size,
        modified: f.modified,
        file_type,
    }
}

/// One page of a directory listing.
#[derive(Debug, Clone, PartialEq, Eq)]
pub struct BrowseResponse {
    pub entries: Vec<BrowseEntry>,
    pub total: usize,
    pub offset: usize,
    pub has_more: bool,
}

/// Position in a listing of `total` entries where a page at `offset` starts.
pub open spec fn page_start(total: int, offset: int) -> int {
    if offset < total {
        offset
    } else {
        total
    }
}

/// Number of entries on a page of at most `limit` entries at `offset`.
pub open spec fn page_len(total: int, offset: int, limit: int) -> int {
    let s = page_start(total, offset);
    if limit < total - s {
        limit
    } else {
        total - s
    }
}

/// The page of `files` that skips `offset` entries and keeps at most `limit`.
pub fn browse_page(files: Vec<FileEntry>, offset: usize, limit: usize) -> (r: BrowseResponse)
    ensures
        r.total == files@.len(),
        r.offset == offset,
        r.has_more == (offset + limit < files@.len()),
        r.entries@.len() == page_len(files@.len() as int, offset as int, limit as int),
        forall|k: int|
            0 <= k < r.entries@.len() ==> describes(
                #[trigger] r.entries@[k],
                files@[page_start(files@.len() as int, offset as int) + k],
            ),
        forall|k: int|
            0 <= k < r.entries@.len() ==> {
                let f = files@[page_start(files@.len() as int, offset as int) + k];
                &&& (#[trigger] r.entries@[k]).name == f.name
                &&& r.entries@[k].path == f.path
                &&& r.entries@[k].is_dir == f.is_dir
                &&& r.entries@[k].size == f.size
                &&& r.entries@[k].modified == f.modified
            },
{
    let ghost all = files@;
    let total = files.len();
    let start: usize = if offset < total {
        offset
    } else {
        total
    };
    let len: usize = if limit < total - start {
        limit
    } else {
        total - start
    };
    let mut rest = files;
    let mut page = rest.split_off(start);
    page.truncate(len);
    let ghost sel = page@;
    assert(sel =~= all.subrange(start as int, start + len));
    let mut entries: Vec<BrowseEntry> = Vec::new();
    let mut i: usize = 0;
    while i < len
        invariant
            i <= len == sel.len(),
            page@ == sel.subrange(i as int, len as int),
            entries@.len() == i,
            sel == all.subrange(start as int, start + len),
            forall|k: int| 0 <= k < i ==> describes(#[trigger] entries@[k], sel[k]),
        decreases len - i,
    {
        let f = page.remove(0);
        assert(f == sel[i as int]);
        assert(page@ =~= sel.subrange(i + 1, len as int));
        let e = browse_entry(f);
        entries.push(e);
        i += 1;
    }
    let has_more = offset < total && limit < total - offset;
    BrowseResponse { entries, total, offset, has_more }
}

/// Consecutive pages neither skip nor repeat entries: a page of `a` entries
/// at `offset` followed by a page of `b` entries right after it covers
/// exactly the page of `a + b` entries at `offset`.
pub proof fn lemma_pages_concatenate(total: nat, offset: nat, a: nat, b: nat)
    ensures
        page_start(total as int, (offset + a) as int) == page_start(total as int, offset as int)
            + page_len(total as int, offset as int, a as int),
        page_len(total as int, offset as int, a as int) + page_len(
            total as int,
            (offset + a) as int,
            b as int,
        ) == page_len(total as int, offset as int, (a + b) as int),
{
}

/// More entries follow a page exactly when the next page is not empty.
pub proof fn lemma_has_more_iff_next_page(total: nat, offset: nat, limit: nat)
    ensures
        (offset + limit < total) <==> page_len(total as int, (offset + limit) as int, 1) > 0,
{
}

/// A device as listed to clients, with the directories it shares.
#[derive(Debug, Clone, PartialEq, Eq)]
pub struct DeviceWithDirs {
    pub device: DeviceInfo,
    pub directories: Vec<String>,
}

impl DeviceWithDirs {
    /// `device` with the directories of its node; none when the node could not be asked.
    pub fn new(device: DeviceInfo, node: Option<NodeInfo>) -> (r: Self)
        ensures
            r.device == device,
            r.directories@ == match node {
                Some(n) => n.directories@,
                None => Seq::<String>::empty(),
            },
    {
        let directories = match node {
            Some(n) => n.directories,
            None => Vec::new(),
        };
        DeviceWithDirs { device, directories }
    }
}

/// `d` is named by `key`, by id or by name.
pub open spec fn device_matches(d: DeviceInfo, key: Seq<char>) -> bool {
    d.id@ == key || d.name@ == key
}

/// Index of the first device named by `key`; the length when none is.
pub open spec fn first_device_match(devices: Seq<DeviceInfo>, key: Seq<char>) -> int
    decreases devices.len(),
{
    if devices.len() == 0 {
        0
    } else if device_matches(devices[0], key) {
        0
    } else {
        1 + first_device_match(devices.drop_first(), key)
    }
}

/// The first device is chosen: it is named by the key and no earlier one is.
pub proof fn lemma_first_device_match(devices: Seq<DeviceInfo>, key: Seq<char>)
    ensures
        0 <= first_device_match(devices, key) <= devices.len(),
        first_device_match(devices, key) < devices.len() ==> device_matches(
            devices[first_device_match(devices, key)],
            key,
        ),
        forall|i: int|
            0 <= i < first_device_match(devices, key) ==> !device_matches(
                #[trigger] devices[i],
                key,
            ),
    decreases devices.len(),
{
    if devices.len() > 0 && !device_matches(devices[0], key) {
        lemma_first_device_match(devices.drop_first(), key);
        assert forall|i: int| 0 <= i < first_device_match(devices, key) implies !device_matches(
            #[trigger] devices[i],
            key,
        ) by {
            if i > 0 {
                assert(devices[i] == devices.drop_first()[i - 1]);
            }
        }
    }
}

/// The first device whose id or name is `key`.
pub fn find_device<'a>(devices: &'a Vec<DeviceInfo>, key: &str) -> (r: Option<&'a DeviceInfo>)
    ensures
        match r {
            Some(d) => {
                &&& first_device_match(devices@, key@) < devices@.len()
                &&& *d == devices@[first_device_match(devices@, key@)]
            },
            None => first_device_match(devices@, key@) == devices@.len(),
        },
{
    let n = devices.len();
    let mut i: usize = 0;
    assert(devices@.skip(0) =~= devices@);
    while i < n
        invariant
            i <= n == devices@.len(),
            first_device_match(devices@, key@) == i + first_device_match(
                devices@.skip(i as int),
                key@,
            ),
        decreases n - i,
    {
        let d = &devices[i];
        if str_eq(d.id.as_str(), key) || str_eq(d.name.as_str(), key) {
            assert(devices@.skip(i as int)[0] == devices@[i as int]);
            return Some(d);
        }
        assert(devices@.skip(i as int)[0] == devices@[i as int]);
        assert(devices@.skip(i as int).drop_first() =~= devices@.skip(i + 1));
        i += 1;
    }
    None
}

/// The error answered when no device is named by `key`.
pub fn device_not_found(key: &str) -> (r: AppError)
    ensures
        (r matches AppError::NotFound(m) && m@ == "Device not found: "@ + key@),
{
    let mut m = String::from_str("Device not found: ");
    m.append(key);
    AppError::NotFound(m)
}

} // verus!
