//! Rules of the on-disk image store: which uploads are accepted, how
//! stored files are named, and in what order images are listed.

use vstd::prelude::*;
use crate::error::AppError;
use crate::formats::{is_raw_ext, is_raw_extension};
use crate::models::{ImageRecord, Timestamp};
use crate::paths::{extension, path_extension};
use crate::text::{push_decimal, decimal, to_lowercase, unicode_lowercase};

verus! {

broadcast use vstd::seq_lib::group_to_multiset_ensures;

/// Extract the file extension of an uploaded file name, lowercased, and
/// accept it only if it is a known RAW format.
pub fn validate_raw_extension(filename: &str) -> (r: Result<String, AppError>)
    ensures
        match path_extension(filename@) {
            None => (r matches Err(AppError::BadRequest(m)) && m@ == "File has no extension"@),
            Some(e) => if is_raw_ext(unicode_lowercase(e)) {
                (r matches Ok(ext) && ext@ == unicode_lowercase(e))
            } else {
                (r matches Err(AppError::BadRequest(m)) && m@ == "Unsupported file format: ."@
                    + unicode_lowercase(e))
            },
        },
{
    match extension(filename) {
        None => Err(AppError::BadRequest(String::from_str("File has no extension"))),
        Some(e) => {
            let ext = to_lowercase(e);
            if is_raw_extension(ext.as_str()) {
                Ok(ext)
            } else {
                let mut m = String::from_str("Unsupported file format: .");
                m.append(ext.as_str());
                Err(AppError::BadRequest(m))
            }
        },
    }
}

/// The error answered when no image with the given id is stored.
pub fn image_not_found(id: &str) -> (r: AppError)
    ensures
        (r matches AppError::NotFound(m) && m@ == "Image "@ + id@ + " not found"@),
{
    let mut m = String::from_str("Image ");
    m.append(id);
    m.append(" not found");
    AppError::NotFound(m)
}

/// Name of the stored original of an image with the given extension.
pub fn original_file_name(ext: &str) -> (r: String)
    ensures
        r@ == "original."@ + ext@,
{
    let mut s = String::from_str("original.");
    s.append(ext);
    s
}

/// Name of the cached preview of an image rendered within `width` x `height`.
pub fn preview_file_name(width: u32, height: u32) -> (r: String)
    ensures
        r@ == "preview_"@ + decimal(width as nat) + "x"@ + decimal(height as nat) + ".jpg"@,
{
    let mut s = String::from_str("preview_");
    push_decimal(&mut s, width as u64);
    s.append("x");
    push_decimal(&mut s, height as u64);
    s.append(".jpg");
    s
}

/// Index of the first record in `s` that is not strictly later than `t`.
pub open spec fn first_not_later(s: Seq<ImageRecord>, t: Timestamp) -> int
    decreases s.len(),
{
    if s.len() == 0 {
        0
    } else if !s[0].created_at.later_than(t) {
        0
    } else {
        1 + first_not_later(s.drop_first(), t)
    }
}

/// The records newest first; records created at the same instant keep the
/// order in which they were given.
pub open spec fn newest_first(s: Seq<ImageRecord>) -> Seq<ImageRecord>
    decreases s.len(),
{
    if s.len() == 0 {
        s
    } else {
        let rest = newest_first(s.drop_first());
        rest.insert(first_not_later(rest, s[0].created_at), s[0])
    }
}

/// No record is followed by a strictly later one.
pub open spec fn is_newest_first(s: Seq<ImageRecord>) -> bool {
    forall|i: int, j: int| 0 <= i < j < s.len() ==> !s[j].created_at.later_than(s[i].created_at)
}

proof fn lemma_first_not_later_bounds(s: Seq<ImageRecord>, t: Timestamp)
    ensures
        0 <= first_not_later(s, t) <= s.len(),
        forall|k: int| 0 <= k < first_not_later(s, t) ==> s[k].created_at.later_than(t),
        first_not_later(s, t) < s.len() ==> !s[first_not_later(s, t)].created_at.later_than(t),
    decreases s.len(),
{
    if s.len() > 0 && s[0].created_at.later_than(t) {
        lemma_first_not_later_bounds(s.drop_first(), t);
        assert forall|k: int| 0 <= k < first_not_later(s, t) implies s[k].created_at.later_than(t) by {
            if k > 0 {
                assert(s[k] == s.drop_first()[k - 1]);
            }
        }
    }
}

/// Orders image records newest first, keeping the given order among records
/// created at the same instant (the listing order of the store).
pub fn sort_newest_first(records: Vec<ImageRecord>) -> (r: Vec<ImageRecord>)
    ensures
        r@ == newest_first(records@),
{
    let ghost all = records@;
    let n = records.len();
    let mut rest = records;
    let mut out: Vec<ImageRecord> = Vec::new();
    assert(all.subrange(n as int, n as int) =~= Seq::<ImageRecord>::empty());
    while rest.len() > 0
        invariant
            n == all.len(),
            rest.len() <= n,
            rest@ == all.subrange(0, rest.len() as int),
            out@ == newest_first(all.subrange(rest.len() as int, n as int)),
        decreases rest.len(),
    {
        let ghost tail = all.subrange(rest.len() - 1, n as int);
        let rec = rest.pop().unwrap();
        assert(rest@ =~= all.subrange(0, rest.len() as int));
        assert(tail.drop_first() =~= all.subrange(rest.len() + 1, n as int));
        assert(tail[0] == rec);
        let mut j: usize = 0;
        assert(out@.skip(0) =~= out@);
        while j < out.len() && out[j].created_at.is_later_than(&rec.created_at)
            invariant
                j <= out.len(),
                first_not_later(out@, rec.created_at) == j + first_not_later(
                    out@.skip(j as int),
                    rec.created_at,
                ),
            decreases out.len() - j,
        {
            assert(out@.skip(j as int).drop_first() =~= out@.skip(j + 1));
            j += 1;
        }
        proof {
            if j < out.len() {
                assert(out@.skip(j as int)[0] == out@[j as int]);
            }
        }
        out.insert(j, rec);
    }
    assert(all.subrange(0, n as int) =~= all);
    out
}

/// Listing newest first yields the same records, each as often as given.
pub proof fn lemma_newest_first_permutes(s: Seq<ImageRecord>)
    ensures
        newest_first(s).to_multiset() == s.to_multiset(),
        newest_first(s).len() == s.len(),
    decreases s.len(),
{
    if s.len() > 0 {
        let rest = newest_first(s.drop_first());
        lemma_newest_first_permutes(s.drop_first());
        lemma_first_not_later_bounds(rest, s[0].created_at);
        assert(s =~= seq![s[0]] + s.drop_first());
        assert(s.drop_first().insert(0, s[0]) =~= s);
    }
}

/// Listing newest first yields a sequence in which no record is followed by
/// a later one.
pub proof fn lemma_newest_first_sorted(s: Seq<ImageRecord>)
    ensures
        is_newest_first(newest_first(s)),
    decreases s.len(),
{
    if s.len() > 0 {
        let rest = newest_first(s.drop_first());
        let t = s[0].created_at;
        lemma_newest_first_sorted(s.drop_first());
        lemma_newest_first_permutes(s.drop_first());
        lemma_first_not_later_bounds(rest, t);
        let j = first_not_later(rest, t);
        let out = rest.insert(j, s[0]);
        assert forall|a: int, b: int| 0 <= a < b < out.len() implies !out[b].created_at.later_than(
            out[a].created_at,
        ) by {
            if a < j && b == j {
                assert(out[a] == rest[a]);
                assert(out[b] == s[0]);
            } else if a < j && b > j {
                assert(out[a] == rest[a]);
                assert(out[b] == rest[b - 1]);
            } else if a == j && b > j {
                assert(out[a] == s[0]);
                assert(out[b] == rest[b - 1]);
                assert(!rest[j].created_at.later_than(t));
                if b - 1 > j {
                    assert(!rest[b - 1].created_at.later_than(rest[j].created_at));
                }
            } else if a > j {
                assert(out[a] == rest[a - 1]);
                assert(out[b] == rest[b - 1]);
            }
        }
    }
}

/// Records created at instant `t`, in order.
pub open spec fn created_at(s: Seq<ImageRecord>, t: Timestamp) -> Seq<ImageRecord> {
    s.filter(|r: ImageRecord| r.created_at == t)
}

/// Listing newest first is stable: the records created at any one instant
/// appear in the order they were given.
pub proof fn lemma_newest_first_stable(s: Seq<ImageRecord>, t: Timestamp)
    ensures
        created_at(newest_first(s), t) == created_at(s, t),
    decreases s.len(),
{
    broadcast use Seq::filter_distributes_over_add;
    broadcast use Seq::lemma_filter_prepend;

    if s.len() > 0 {
        let x = s[0];
        let rest = newest_first(s.drop_first());
        lemma_newest_first_stable(s.drop_first(), t);
        lemma_first_not_later_bounds(rest, x.created_at);
        let j = first_not_later(rest, x.created_at);
        let p = |r: ImageRecord| r.created_at == t;
        assert(rest =~= rest.take(j) + rest.skip(j));
        assert(rest.insert(j, x) =~= rest.take(j) + (seq![x] + rest.skip(j)));
        assert(s =~= seq![x] + s.drop_first());
        if x.created_at == t {
            assert forall|k: int| 0 <= k < rest.take(j).len() implies !p(rest.take(j)[k]) by {
                assert(rest.take(j)[k] == rest[k]);
            }
            rest.take(j).lemma_all_neg_filter_empty(p);
        }
    }
}

} // verus!
