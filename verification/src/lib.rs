//! Collects the text of selected files under a directory into one string,
//! each file wrapped in comment delimiters chosen by its extension.
//!
//! The filesystem walk and the final sink (standard output or clipboard)
//! live outside this crate; the library holds the verified logic: path
//! string handling, the folder filter, comment-style selection, block
//! formatting, assembly and trimming.

pub mod assemble;
pub mod laws;
pub mod paths;
pub mod style;
pub mod text;

pub use assemble::{files_to_string, folder_included, FileEntry, RunError};
pub use paths::parent_folder_name;
pub use style::{get_comment_style, CommentStyle};
