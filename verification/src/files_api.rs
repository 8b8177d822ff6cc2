//! File-tree shapes of the workspace endpoints. The walking itself is an
//! external collaborator's work.

use vstd::prelude::*;

verus! {

/// One node of a workspace file tree.
#[derive(Debug)]
pub struct FileNode {
    /// The entry's name.
    pub name: String,
    /// Whether this is a `file` or a `directory`, as text.
    pub file_type: String,
    /// Full path of the entry.
    pub path: String,
    /// Children of a directory, when they were walked.
    pub children: Option<Vec<FileNode>>,
    /// Size in bytes, for files.
    pub size: Option<u64>,
}

/// Body of a file write; the path rides in the request's address.
#[derive(Debug)]
pub struct WriteFileRequest {
    /// The content to write.
    pub content: String,
}

} // verus!
