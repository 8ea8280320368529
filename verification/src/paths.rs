//! A plain-string model of the path facts the pipeline reads: the final
//! path segment, the base name of the immediate parent directory, and the
//! file extension. A path is a string whose segments are separated by `/`.

use vstd::prelude::*;
use crate::text::{last_index_of, lemma_last_index_of_props, rfind_char};

verus! {

/// The final segment of `path`: everything after the last `/`, or the
/// whole string when there is no `/`.
pub open spec fn file_name_of(path: Seq<char>) -> Seq<char> {
    path.subrange(last_index_of(path, '/') + 1, path.len() as int)
}

/// The base name of the immediate parent directory of `path`: the segment
/// before the final one, or empty when the path has a single segment.
pub open spec fn parent_name_of(path: Seq<char>) -> Seq<char> {
    if last_index_of(path, '/') < 0 {
        Seq::<char>::empty()
    } else {
        file_name_of(path.subrange(0, last_index_of(path, '/')))
    }
}

/// The extension of the final segment of `path`: everything after the last
/// `.` of that segment. A segment with no `.`, or whose only `.` leads it
/// (a hidden file such as `.profile`), has no extension.
pub open spec fn extension_of(path: Seq<char>) -> Option<Seq<char>> {
    let name = file_name_of(path);
    let d = last_index_of(name, '.');
    if d <= 0 {
        None
    } else {
        Some(name.subrange(d + 1, name.len() as int))
    }
}

/// Returns the final segment of `path`.
pub fn file_name(path: &str) -> (r: String)
    ensures
        r@ == file_name_of(path@),
{
    proof {
        lemma_last_index_of_props(path@, '/');
    }
    let n = path.unicode_len();
    match rfind_char(path, '/') {
        None => {
            proof {
                assert(path@.subrange(0, path@.len() as int) =~= path@);
            }
            String::from_str(path)
        },
        Some(i) => String::from_str(path.substring_char(i + 1, n)),
    }
}

/// Returns the base name of the immediate parent directory of `path`.
pub fn parent_folder_name(path: &str) -> (r: String)
    ensures
        r@ == parent_name_of(path@),
{
    proof {
        lemma_last_index_of_props(path@, '/');
    }
    match rfind_char(path, '/') {
        None => String::new(),
        Some(i) => {
            let parent = path.substring_char(0, i);
            file_name(parent)
        },
    }
}

/// Returns the extension of the final segment of `path`, if it has one.
pub fn file_extension(path: &str) -> (r: Option<String>)
    ensures
        r matches Some(e) ==> extension_of(path@) == Some(e@),
        r is None ==> extension_of(path@) is None,
{
    let name = file_name(path);
    let name_str = name.as_str();
    proof {
        lemma_last_index_of_props(name@, '.');
    }
    let n = name_str.unicode_len();
    match rfind_char(name_str, '.') {
        None => None,
        Some(d) => {
            if d == 0 {
                None
            } else {
                Some(String::from_str(name_str.substring_char(d + 1, n)))
            }
        },
    }
}

} // verus!
