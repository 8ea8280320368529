//! Comment-delimiter styles and their selection by file extension.

use vstd::prelude::*;
use crate::paths::{extension_of, file_extension};
use crate::text::str_eq;

verus! {

/// The comment-delimiter family used to wrap one file's contents.
#[derive(Clone, Copy, PartialEq, Eq, Structural, Debug)]
pub enum CommentStyle {
    /// `//` line comments, also the default for unknown extensions.
    Slash,
    /// `#` line comments.
    Hash,
    /// `<!--` ... `-->` block comments.
    Html,
    /// `/*` ... `*/` block comments.
    Css,
}

/// The opening marker written before a file's path in its header line.
pub open spec fn marker_of(style: CommentStyle) -> Seq<char> {
    match style {
        CommentStyle::Slash => "//"@,
        CommentStyle::Hash => "#"@,
        CommentStyle::Html => "<!--"@,
        CommentStyle::Css => "/*"@,
    }
}

/// The marker written on its own line after a block, empty for line
/// comments.
pub open spec fn closing_of(style: CommentStyle) -> Seq<char> {
    match style {
        CommentStyle::Html => "-->\n"@,
        CommentStyle::Css => "*/\n"@,
        _ => Seq::<char>::empty(),
    }
}

/// The style selected by a file extension: exact, case-sensitive matches
/// on the known extensions, and `//` for everything else.
pub open spec fn style_for_extension(ext: Option<Seq<char>>) -> CommentStyle {
    match ext {
        Some(e) => if e == "js"@ || e == "ts"@ || e == "java"@ {
            CommentStyle::Slash
        } else if e == "py"@ || e == "rb"@ || e == "sh"@ {
            CommentStyle::Hash
        } else if e == "html"@ {
            CommentStyle::Html
        } else if e == "css"@ {
            CommentStyle::Css
        } else {
            CommentStyle::Slash
        },
        None => CommentStyle::Slash,
    }
}

/// The style selected by the extension of `path`'s final segment.
pub open spec fn style_of(path: Seq<char>) -> CommentStyle {
    style_for_extension(extension_of(path))
}

/// Returns the opening marker of `style` as a string slice.
pub fn marker_str(style: CommentStyle) -> (r: &'static str)
    ensures
        r@ == marker_of(style),
{
    match style {
        CommentStyle::Slash => "//",
        CommentStyle::Hash => "#",
        CommentStyle::Html => "<!--",
        CommentStyle::Css => "/*",
    }
}

/// Returns the comment style for the file at `path`, keyed by its
/// extension.
pub fn get_comment_style(path: &str) -> (r: CommentStyle)
    ensures
        r == style_of(path@),
{
    match file_extension(path) {
        None => CommentStyle::Slash,
        Some(e) => {
            let es = e.as_str();
            if str_eq(es, "js") || str_eq(es, "ts") || str_eq(es, "java") {
                CommentStyle::Slash
            } else if str_eq(es, "py") || str_eq(es, "rb") || str_eq(es, "sh") {
                CommentStyle::Hash
            } else if str_eq(es, "html") {
                CommentStyle::Html
            } else if str_eq(es, "css") {
                CommentStyle::Css
            } else {
                CommentStyle::Slash
            }
        },
    }
}

} // verus!
