//! The guarantees the pipeline gives beyond the contract of any single
//! function, each proved over the spec functions that the contracts use.

use vstd::prelude::*;
use crate::assemble::{assembled, entry_block, included, output_of, FileEntry};
use crate::paths::parent_name_of;
use crate::style::{closing_of, marker_of, style_for_extension, CommentStyle};
use crate::text::{trim_back, trim_front};

verus! {

/// The concatenation, in order, of every entry's block, with no filter
/// applied.
pub open spec fn all_blocks(entries: Seq<FileEntry>) -> Seq<char>
    decreases entries.len(),
{
    if entries.len() == 0 {
        Seq::<char>::empty()
    } else {
        all_blocks(entries.drop_last()) + entry_block(entries.last())
    }
}

/// Law: with an empty folder filter set, every entry contributes its
/// block to the assembled text, exactly once, in walk order.
pub proof fn lemma_empty_filter_includes_all(entries: Seq<FileEntry>, folders: Seq<Seq<char>>)
    requires
        folders.len() == 0,
    ensures
        assembled(entries, folders) == all_blocks(entries),
    decreases entries.len(),
{
    if entries.len() > 0 {
        lemma_empty_filter_includes_all(entries.drop_last(), folders);
    }
}

/// Law: with a non-empty folder filter set, the assembled text is the
/// concatenation of the blocks of exactly those entries whose immediate
/// parent directory's base name is in the set: a file's block appears if
/// and only if its parent name is a member.
pub proof fn lemma_filter_selects(entries: Seq<FileEntry>, folders: Seq<Seq<char>>)
    requires
        folders.len() > 0,
    ensures
        assembled(entries, folders) == all_blocks(
            entries.filter(|e: FileEntry| folders.contains(parent_name_of(e.path@))),
        ),
    decreases entries.len(),
{
    reveal(Seq::filter);
    let pred = |e: FileEntry| folders.contains(parent_name_of(e.path@));
    if entries.len() == 0 {
        assert(entries.filter(pred) =~= entries);
    } else {
        lemma_filter_selects(entries.drop_last(), folders);
        let sub = entries.drop_last().filter(pred);
        if pred(entries.last()) {
            let whole = sub.push(entries.last());
            assert(whole.drop_last() =~= sub);
            assert(assembled(entries, folders) == all_blocks(sub) + entry_block(entries.last()));
        } else {
            assert(assembled(entries, folders) =~= all_blocks(sub));
        }
    }
}

/// Law: the output is a function of the walked entries and the filter set
/// alone, so two runs over an unchanged tree with identical flags produce
/// identical output.
pub proof fn lemma_output_deterministic(
    e1: Seq<FileEntry>,
    f1: Seq<Seq<char>>,
    e2: Seq<FileEntry>,
    f2: Seq<Seq<char>>,
)
    requires
        e1 == e2,
        f1 == f2,
    ensures
        output_of(e1, f1) == output_of(e2, f2),
{
}

/// With every entry excluded, nothing is assembled.
pub proof fn lemma_all_excluded_assembles_nothing(entries: Seq<FileEntry>, folders: Seq<Seq<char>>)
    requires
        forall|i: int| 0 <= i < entries.len() ==> !included(#[trigger] entries[i], folders),
    ensures
        assembled(entries, folders) == Seq::<char>::empty(),
    decreases entries.len(),
{
    if entries.len() > 0 {
        assert(forall|i: int|
            0 <= i < entries.len() - 1 ==> entries.drop_last()[i] == entries[i]);
        lemma_all_excluded_assembles_nothing(entries.drop_last(), folders);
        assert(entries.last() == entries[entries.len() - 1]);
        assert(assembled(entries, folders) =~= Seq::<char>::empty());
    }
}

/// Law: a walk that yields no entries, or one where the filter excludes
/// every entry, produces the empty output, not an error.
pub proof fn lemma_all_excluded_empty(entries: Seq<FileEntry>, folders: Seq<Seq<char>>)
    requires
        forall|i: int| 0 <= i < entries.len() ==> !included(#[trigger] entries[i], folders),
    ensures
        output_of(entries, folders) == Seq::<char>::empty(),
{
    lemma_all_excluded_assembles_nothing(entries, folders);
    assert(trim_back(trim_front(Seq::<char>::empty())) == Seq::<char>::empty());
}

/// Law: the extension table. Each known extension selects the style of
/// the table, case-sensitively; any other extension, and a file with no
/// extension, select the default `//` style. Each style opens with its
/// marker and closes with its closing line, empty for the line-comment
/// styles.
pub proof fn lemma_extension_table(other: Seq<char>)
    ensures
        marker_of(CommentStyle::Slash) == "//"@,
        closing_of(CommentStyle::Slash) == Seq::<char>::empty(),
        marker_of(CommentStyle::Hash) == "#"@,
        closing_of(CommentStyle::Hash) == Seq::<char>::empty(),
        marker_of(CommentStyle::Html) == "<!--"@,
        closing_of(CommentStyle::Html) == "-->\n"@,
        marker_of(CommentStyle::Css) == "/*"@,
        closing_of(CommentStyle::Css) == "*/\n"@,
        style_for_extension(Some("js"@)) == CommentStyle::Slash,
        style_for_extension(Some("ts"@)) == CommentStyle::Slash,
        style_for_extension(Some("java"@)) == CommentStyle::Slash,
        style_for_extension(Some("py"@)) == CommentStyle::Hash,
        style_for_extension(Some("rb"@)) == CommentStyle::Hash,
        style_for_extension(Some("sh"@)) == CommentStyle::Hash,
        style_for_extension(Some("html"@)) == CommentStyle::Html,
        style_for_extension(Some("css"@)) == CommentStyle::Css,
        style_for_extension(None) == CommentStyle::Slash,
        other != "js"@ && other != "ts"@ && other != "java"@ && other != "py"@ && other != "rb"@
            && other != "sh"@ && other != "html"@ && other != "css"@ ==> style_for_extension(
            Some(other),
        ) == CommentStyle::Slash,
{
    reveal_strlit("js");
    reveal_strlit("ts");
    reveal_strlit("java");
    reveal_strlit("py");
    reveal_strlit("rb");
    reveal_strlit("sh");
    reveal_strlit("html");
    reveal_strlit("css");
    assert("js"@.len() == 2 && "js"@[0] == 'j');
    assert("ts"@.len() == 2 && "ts"@[0] == 't');
    assert("java"@.len() == 4 && "java"@[0] == 'j');
    assert("py"@.len() == 2 && "py"@[0] == 'p');
    assert("rb"@.len() == 2 && "rb"@[0] == 'r');
    assert("sh"@.len() == 2 && "sh"@[0] == 's');
    assert("html"@.len() == 4 && "html"@[0] == 'h');
    assert("css"@.len() == 3 && "css"@[0] == 'c');
}

} // verus!
