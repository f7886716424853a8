//! File kinds for the file viewer: detection from the extension
//! and the labels shown in its header.

use vstd::prelude::*;
use crate::strutil;

verus! {

/// What kind of file the viewer is showing, detected from the
/// extension.
#[derive(Debug, Clone, Copy, PartialEq, Eq, Structural)]
pub enum FileKind {
    Markdown,
    Json,
    Rust,
    Toml,
    Yaml,
    PlainText,
}

/// How the viewer presents the file.
#[derive(Debug, Clone, Copy, PartialEq, Eq, Structural)]
pub enum FileViewMode {
    Raw,
    Rendered,
}

/// The kind each known extension (already lower-cased) maps to;
/// anything else is plain text.
pub open spec fn spec_kind_for_extension(ext: Seq<char>) -> FileKind {
    if ext == "md"@ || ext == "markdown"@ {
        FileKind::Markdown
    } else if ext == "json"@ || ext == "jsonl"@ {
        FileKind::Json
    } else if ext == "rs"@ {
        FileKind::Rust
    } else if ext == "toml"@ {
        FileKind::Toml
    } else if ext == "yaml"@ || ext == "yml"@ {
        FileKind::Yaml
    } else {
        FileKind::PlainText
    }
}

impl FileKind {
    /// Detects the kind from a lower-cased file extension.
    pub fn from_extension(ext: &str) -> (r: FileKind)
        ensures
            r == spec_kind_for_extension(ext@),
    {
        if strutil::str_eq(ext, "md") || strutil::str_eq(ext, "markdown") {
            FileKind::Markdown
        } else if strutil::str_eq(ext, "json") || strutil::str_eq(ext, "jsonl") {
            FileKind::Json
        } else if strutil::str_eq(ext, "rs") {
            FileKind::Rust
        } else if strutil::str_eq(ext, "toml") {
            FileKind::Toml
        } else if strutil::str_eq(ext, "yaml") || strutil::str_eq(ext, "yml") {
            FileKind::Yaml
        } else {
            FileKind::PlainText
        }
    }

    /// The short label shown in the viewer's header.
    pub fn label(&self) -> (r: &'static str)
        ensures
            r@ == spec_file_kind_label(*self),
    {
        match self {
            FileKind::Markdown => "md",
            FileKind::Json => "json",
            FileKind::Rust => "rust",
            FileKind::Toml => "toml",
            FileKind::Yaml => "yaml",
            FileKind::PlainText => "text",
        }
    }
}

/// What `FileKind::label` returns.
pub open spec fn spec_file_kind_label(k: FileKind) -> Seq<char> {
    match k {
        FileKind::Markdown => "md"@,
        FileKind::Json => "json"@,
        FileKind::Rust => "rust"@,
        FileKind::Toml => "toml"@,
        FileKind::Yaml => "yaml"@,
        FileKind::PlainText => "text"@,
    }
}

impl FileViewMode {
    /// The label shown for the active view mode.
    pub fn label(&self) -> (r: &'static str)
        ensures
            (*self == FileViewMode::Raw ==> r@ == "raw"@) && (*self == FileViewMode::Rendered
                ==> r@ == "rendered"@),
    {
        match self {
            FileViewMode::Raw => "raw",
            FileViewMode::Rendered => "rendered",
        }
    }
}

} // verus!
