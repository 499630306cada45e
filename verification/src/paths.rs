//! The file-name and extension of a `/`-separated path, as
//! `std::path::Path::file_name` and `Path::extension` define them on Unix.

use vstd::prelude::*;
use crate::text::{last_index_of, lemma_last_index_of_bounds, rfind_char, str_eq};

verus! {

/// The final component of a path, if it is a normal name: trailing
/// separators and `.` components are skipped, and a path that ends in `..`
/// (or is only a root or `.`) has none.
pub open spec fn file_name_of(p: Seq<char>) -> Option<Seq<char>>
    decreases p.len(),
{
    let k = last_index_of(p, '/');
    let seg = p.subrange(k + 1, p.len() as int);
    if seg.len() == 0 || seg == seq!['.'] {
        if k < 0 {
            None
        } else {
            proof {
                lemma_last_index_of_bounds(p, '/');
            }
            file_name_of(p.subrange(0, k))
        }
    } else if seg == seq!['.', '.'] {
        None
    } else {
        Some(seg)
    }
}

/// The extension of a file name: the part after its last `.`, unless the
/// name has no `.` or its only `.` is the first character.
pub open spec fn extension_of(name: Seq<char>) -> Option<Seq<char>> {
    let k = last_index_of(name, '.');
    if k <= 0 {
        None
    } else {
        Some(name.subrange(k + 1, name.len() as int))
    }
}

/// `Path::new(p).extension()`.
pub open spec fn path_extension(p: Seq<char>) -> Option<Seq<char>> {
    match file_name_of(p) {
        Some(name) => extension_of(name),
        None => None,
    }
}

/// Bounds of the file name of `p` within `p`, as a character range.
pub fn file_name_range(p: &str) -> (r: Option<(usize, usize)>)
    ensures
        match r {
            Some((start, end)) => {
                &&& start <= end <= p@.len()
                &&& file_name_of(p@) == Some(p@.subrange(start as int, end as int))
            },
            None => file_name_of(p@) is None,
        },
{
    let n = p.unicode_len();
    let mut end: usize = n;
    assert(p@.subrange(0, n as int) =~= p@);
    loop
        invariant
            end <= n == p@.len(),
            file_name_of(p@) == file_name_of(p@.subrange(0, end as int)),
        decreases end,
    {
        let ghost q = p@.subrange(0, end as int);
        let k = rfind_char(p, '/', end);
        proof {
            lemma_last_index_of_bounds(q, '/');
        }
        let start: usize = match k {
            Some(k) => k + 1,
            None => 0,
        };
        let seg = p.substring_char(start, end);
        assert(seg@ =~= q.subrange(last_index_of(q, '/') + 1, q.len() as int));
        if seg.unicode_len() == 0 || str_eq(seg, ".") {
            proof {
                reveal_strlit(".");
                assert("."@ =~= seq!['.']);
            }
            match k {
                None => {
                    return None;
                },
                Some(k) => {
                    assert(q.subrange(0, k as int) =~= p@.subrange(0, k as int));
                    end = k;
                },
            }
        } else if str_eq(seg, "..") {
            proof {
                reveal_strlit(".");
                reveal_strlit("..");
                assert("."@ =~= seq!['.']);
                assert(".."@ =~= seq!['.', '.']);
                assert(seg@ != seq!['.']);
            }
            return None;
        } else {
            proof {
                reveal_strlit(".");
                reveal_strlit("..");
                assert("."@ =~= seq!['.']);
                assert(".."@ =~= seq!['.', '.']);
                assert(seg@ != seq!['.']);
                assert(seg@ != seq!['.', '.']);
                assert(p@.subrange(start as int, end as int) =~= seg@);
            }
            return Some((start, end));
        }
    }
}

/// `Path::new(p).extension()`, as a slice of `p`.
pub fn extension(p: &str) -> (r: Option<&str>)
    ensures
        match r {
            Some(e) => path_extension(p@) == Some(e@),
            None => path_extension(p@) is None,
        },
{
    match file_name_range(p) {
        None => None,
        Some((start, end)) => {
            let name = p.substring_char(start, end);
            let len = end - start;
            assert(name@.subrange(0, len as int) =~= name@);
            match rfind_char(name, '.', len) {
                None => None,
                Some(k) => {
                    if k == 0 {
                        None
                    } else {
                        proof {
                            lemma_last_index_of_bounds(name@, '.');
                        }
                        Some(name.substring_char(k + 1, len))
                    }
                },
            }
        },
    }
}

} // verus!
