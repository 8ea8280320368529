//! Assembly of the final output: the folder filter, the per-file comment
//! block, and the pipeline that turns a walked sequence of file entries
//! into one trimmed string.

use vstd::prelude::*;
use crate::paths::{parent_folder_name, parent_name_of};
use crate::style::{closing_of, get_comment_style, marker_of, marker_str, style_of, CommentStyle};
use crate::text::{str_eq, trim_of, trim_whitespace};

verus! {

/// One regular file met during the walk: its path, and its text if it
/// could be read (`None` when reading failed or was not attempted).
#[derive(Clone, Debug)]
pub struct FileEntry {
    pub path: String,
    pub contents: Option<String>,
}

/// The failure of a whole run.
#[derive(Clone, Copy, PartialEq, Eq, Structural, Debug)]
pub enum RunError {
    /// The root path does not name a directory.
    NotADirectory,
}

/// The characters of an optionally read file text.
pub open spec fn content_view(c: Option<String>) -> Option<Seq<char>> {
    match c {
        Some(s) => Some(s@),
        None => None,
    }
}

/// Whether a file whose immediate parent directory is named `parent` is
/// included: always when `folders` is empty, else exactly when `parent`
/// is one of `folders`.
pub open spec fn folder_match(folders: Seq<Seq<char>>, parent: Seq<char>) -> bool {
    folders.len() == 0 || folders.contains(parent)
}

/// Whether the entry `e` passes the folder filter.
pub open spec fn included(e: FileEntry, folders: Seq<Seq<char>>) -> bool {
    folder_match(folders, parent_name_of(e.path@))
}

/// The header line of one block: a blank line, the opening marker, a
/// space, the path, and a newline.
pub open spec fn header_of(style: CommentStyle, path: Seq<char>) -> Seq<char> {
    "\n"@ + marker_of(style) + " "@ + path + "\n"@
}

/// The footer of one block: a `.` line, then the closing marker line for
/// block-comment styles.
pub open spec fn footer_of(style: CommentStyle) -> Seq<char> {
    ".\n"@ + closing_of(style)
}

/// The whole block emitted for one file: header, the file's text and a
/// newline when it was read, and footer.
pub open spec fn block_of(path: Seq<char>, contents: Option<Seq<char>>) -> Seq<char> {
    let style = style_of(path);
    header_of(style, path) + (match contents {
        Some(c) => c + "\n"@,
        None => Seq::<char>::empty(),
    }) + footer_of(style)
}

/// The block emitted for the entry `e`.
pub open spec fn entry_block(e: FileEntry) -> Seq<char> {
    block_of(e.path@, content_view(e.contents))
}

/// The concatenation, in walk order, of the blocks of the entries that
/// pass the folder filter.
pub open spec fn assembled(entries: Seq<FileEntry>, folders: Seq<Seq<char>>) -> Seq<char>
    decreases entries.len(),
{
    if entries.len() == 0 {
        Seq::<char>::empty()
    } else {
        assembled(entries.drop_last(), folders) + (if included(entries.last(), folders) {
            entry_block(entries.last())
        } else {
            Seq::<char>::empty()
        })
    }
}

/// The final output of a run: the assembled blocks with leading and
/// trailing whitespace trimmed.
pub open spec fn output_of(entries: Seq<FileEntry>, folders: Seq<Seq<char>>) -> Seq<char> {
    trim_of(assembled(entries, folders))
}

/// Decides the folder filter for one parent-directory name.
pub fn folder_included(folders: &Vec<String>, parent: &str) -> (r: bool)
    ensures
        r == folder_match(folders.deep_view(), parent@),
{
    if folders.len() == 0 {
        return true;
    }
    let mut i: usize = 0;
    while i < folders.len()
        invariant
            i <= folders.len(),
            forall|k: int| 0 <= k < i ==> folders.deep_view()[k] != parent@,
        decreases folders.len() - i,
    {
        if str_eq(folders[i].as_str(), parent) {
            proof {
                assert(folders.deep_view()[i as int] == parent@);
            }
            return true;
        }
        i += 1;
    }
    proof {
        assert(!folders.deep_view().contains(parent@));
    }
    false
}

/// Appends to `out` the comment block for the file at `path` whose text,
/// if it was read, is `contents`.
pub fn append_file_block(out: &mut String, path: &str, contents: &Option<String>)
    ensures
        final(out)@ == old(out)@ + block_of(path@, content_view(*contents)),
{
    let style = get_comment_style(path);
    out.append("\n");
    out.append(marker_str(style));
    out.append(" ");
    out.append(path);
    out.append("\n");
    match contents {
        Some(c) => {
            out.append(c.as_str());
            out.append("\n");
        },
        None => {},
    }
    out.append(".\n");
    match style {
        CommentStyle::Html => out.append("-->\n"),
        CommentStyle::Css => out.append("*/\n"),
        _ => {},
    }
    proof {
        assert(out@ =~= old(out)@ + block_of(path@, content_view(*contents)));
    }
}

/// Runs the whole pipeline over the entries the walk produced, in walk
/// order. Fails, producing nothing, when the root was not a directory;
/// otherwise the result is the trimmed concatenation of the blocks of the
/// entries whose parent directory passes the folder filter.
pub fn files_to_string(root_is_dir: bool, entries: &Vec<FileEntry>, folders: &Vec<String>) -> (r:
    Result<String, RunError>)
    ensures
        root_is_dir ==> (r matches Ok(s) && s@ == output_of(entries@, folders.deep_view())),
        !root_is_dir ==> r == Result::<String, RunError>::Err(RunError::NotADirectory),
{
    if !root_is_dir {
        return Err(RunError::NotADirectory);
    }
    let mut out = String::new();
    let mut i: usize = 0;
    while i < entries.len()
        invariant
            i <= entries.len(),
            out@ == assembled(entries@.subrange(0, i as int), folders.deep_view()),
        decreases entries.len() - i,
    {
        let e = &entries[i];
        let parent = parent_folder_name(e.path.as_str());
        if folder_included(folders, parent.as_str()) {
            append_file_block(&mut out, e.path.as_str(), &e.contents);
        }
        proof {
            let pre = entries@.subrange(0, i as int);
            let post = entries@.subrange(0, i + 1);
            assert(post.drop_last() =~= pre);
            assert(post.last() == entries@[i as int]);
            if !included(entries@[i as int], folders.deep_view()) {
                assert(out@ =~= assembled(post, folders.deep_view()));
            }
        }
        i += 1;
    }
    proof {
        assert(entries@.subrange(0, entries@.len() as int) =~= entries@);
    }
    Ok(trim_whitespace(out.as_str()))
}

} // verus!
