//! Path resolution against the workspace root, and the request/response
//! shapes of the file endpoints. The filesystem work itself stays with the
//! caller.

use vstd::prelude::*;
use vstd::string::StrSliceExecFns;
use vstd::string::StringExecFns;

verus! {

/// Where a relative path lands: an absolute path stands alone, anything
/// else hangs off the root, with exactly one separator between them.
pub open spec fn resolved_spec(root: Seq<char>, path: Seq<char>) -> Seq<char> {
    if path.len() > 0 && path[0] == '/' {
        path
    } else if root.len() > 0 && root[root.len() - 1] == '/' {
        root + path
    } else {
        root + seq!['/'] + path
    }
}

/// Resolves request paths against one workspace root.
pub struct FileManager {
    root: String,
}

impl FileManager {
    /// The configured workspace root.
    pub closed spec fn root_spec(&self) -> Seq<char> {
        self.root@
    }

    /// A manager rooted at `root`.
    pub fn new(root: String) -> (r: FileManager)
        ensures
            r.root_spec() == root@,
    {
        FileManager { root }
    }

    /// The absolute path a request path addresses.
    pub fn resolve(&self, path: &str) -> (r: String)
        ensures
            r@ == resolved_spec(self.root_spec(), path@),
    {
        if !path.is_empty() && path.get_char(0) == '/' {
            return path.to_owned();
        }
        let rl = self.root.as_str().unicode_len();
        if rl > 0 && self.root.as_str().get_char(rl - 1) == '/' {
            self.root.clone().concat(path)
        } else {
            let joined = self.root.clone().concat("/").concat(path);
            proof {
                reveal_strlit("/");
                assert("/"@ =~= seq!['/']);
                assert(joined@ =~= self.root@ + seq!['/'] + path@);
            }
            joined
        }
    }
}

/// Query of a directory listing.
#[derive(Debug)]
pub struct ListQuery {
    /// Directory to list; the workspace root when absent.
    pub path: Option<String>,
}

/// Query of a directory tree.
#[derive(Debug)]
pub struct TreeQuery {
    /// Directory to walk; the workspace root when absent.
    pub path: Option<String>,
    /// How deep to descend, when given.
    pub depth: Option<usize>,
}

/// Body of a file read.
#[derive(Debug)]
pub struct ReadRequest {
    /// Path of the file to read.
    pub path: String,
}

/// Answer to a file read.
#[derive(Debug)]
pub struct ReadResponse {
    /// The file's text.
    pub content: String,
    /// Its size in bytes.
    pub size: usize,
}

/// Body of a file write.
#[derive(Debug)]
pub struct WriteRequest {
    /// Path of the file to write.
    pub path: String,
    /// The content to write.
    pub content: String,
}

/// Answer to a file write.
#[derive(Debug, PartialEq)]
pub struct WriteResponse {
    /// Whether the write went through.
    pub success: bool,
    /// How many bytes were written.
    pub bytes_written: usize,
}

/// Body of a file create.
#[derive(Debug)]
pub struct CreateRequest {
    /// Path of the file to create.
    pub path: String,
    /// Initial content, when given.
    pub content: Option<String>,
}

/// Answer to a file create.
#[derive(Debug, PartialEq)]
pub struct CreateResponse {
    /// Whether the file was created.
    pub success: bool,
}

/// Body of a delete.
#[derive(Debug)]
pub struct DeleteRequest {
    /// Path to remove.
    pub path: String,
    /// Whether a directory is removed with its contents.
    pub recursive: bool,
}

/// Answer to a delete.
#[derive(Debug, PartialEq)]
pub struct DeleteResponse {
    /// Whether the removal went through.
    pub success: bool,
}

/// Body of a rename.
#[derive(Debug)]
pub struct RenameRequest {
    /// Current path.
    pub from: String,
    /// New path.
    pub to: String,
}

/// Answer to a rename.
#[derive(Debug, PartialEq)]
pub struct RenameResponse {
    /// Whether the rename went through.
    pub success: bool,
}

/// Body of a directory create.
#[derive(Debug)]
pub struct MkdirRequest {
    /// Directory to create.
    pub path: String,
    /// Whether missing parents are created too.
    pub recursive: bool,
}

/// Answer to a directory create.
#[derive(Debug, PartialEq)]
pub struct MkdirResponse {
    /// Whether the directory was created.
    pub success: bool,
}

/// Body of a filename search.
#[derive(Debug)]
pub struct SearchRequest {
    /// Substring looked for in file names, without regard to case.
    pub pattern: String,
    /// Directory to search under; the workspace root when absent.
    pub path: Option<String>,
}

} // verus!
