//! Editor-facing types: the language guessed from a file extension, and the
//! request/response shapes of the buffer endpoints. The rope-backed buffers
//! themselves are an external collaborator.

use vstd::prelude::*;
use vstd::string::StrSliceExecFns;

verus! {

/// Languages the editor distinguishes.
#[derive(Debug, Clone, Copy, PartialEq)]
pub enum Language {
    /// Rust sources.
    Rust,
    /// JavaScript sources.
    JavaScript,
    /// TypeScript sources.
    TypeScript,
    /// Python sources.
    Python,
    /// JSON documents.
    Json,
    /// TOML documents.
    Toml,
    /// Markdown documents.
    Markdown,
    /// HTML documents.
    Html,
    /// CSS documents.
    Css,
    /// Shell scripts.
    Shell,
    /// Anything else.
    Unknown,
}

/// An ASCII capital mapped to its lowercase; every other character is
/// unchanged.
pub open spec fn lower_char(c: char) -> char {
    match c {
        'A' => 'a',
        'B' => 'b',
        'C' => 'c',
        'D' => 'd',
        'E' => 'e',
        'F' => 'f',
        'G' => 'g',
        'H' => 'h',
        'I' => 'i',
        'J' => 'j',
        'K' => 'k',
        'L' => 'l',
        'M' => 'm',
        'N' => 'n',
        'O' => 'o',
        'P' => 'p',
        'Q' => 'q',
        'R' => 'r',
        'S' => 's',
        'T' => 't',
        'U' => 'u',
        'V' => 'v',
        'W' => 'w',
        'X' => 'x',
        'Y' => 'y',
        'Z' => 'z',
        _ => c,
    }
}

/// A string lowered character by character, ASCII letters only.
pub open spec fn lower_seq(s: Seq<char>) -> Seq<char> {
    s.map_values(|c: char| lower_char(c))
}

/// The language behind an already-lowered extension.
pub open spec fn language_of(low: Seq<char>) -> Language {
    if low == "rs"@ {
        Language::Rust
    } else if low == "js"@ || low == "mjs"@ {
        Language::JavaScript
    } else if low == "ts"@ || low == "tsx"@ {
        Language::TypeScript
    } else if low == "py"@ {
        Language::Python
    } else if low == "json"@ {
        Language::Json
    } else if low == "toml"@ {
        Language::Toml
    } else if low == "md"@ {
        Language::Markdown
    } else if low == "html"@ {
        Language::Html
    } else if low == "css"@ {
        Language::Css
    } else if low == "sh"@ || low == "bash"@ {
        Language::Shell
    } else {
        Language::Unknown
    }
}

/// Lower one character, ASCII only.
fn lower_char_exec(c: char) -> (r: char)
    ensures
        r == lower_char(c),
{
    match c {
        'A' => 'a',
        'B' => 'b',
        'C' => 'c',
        'D' => 'd',
        'E' => 'e',
        'F' => 'f',
        'G' => 'g',
        'H' => 'h',
        'I' => 'i',
        'J' => 'j',
        'K' => 'k',
        'L' => 'l',
        'M' => 'm',
        'N' => 'n',
        'O' => 'o',
        'P' => 'p',
        'Q' => 'q',
        'R' => 'r',
        'S' => 's',
        'T' => 't',
        'U' => 'u',
        'V' => 'v',
        'W' => 'w',
        'X' => 'x',
        'Y' => 'y',
        'Z' => 'z',
        _ => c,
    }
}

/// Whether `s`, lowered, equals the (already lowercase) literal `lit`.
fn matches_lowered(s: &str, lit: &str) -> (b: bool)
    ensures
        b == (lower_seq(s@) == lit@),
{
    let n = s.unicode_len();
    if n != lit.unicode_len() {
        proof {
            assert(lower_seq(s@).len() == s@.len());
        }
        return false;
    }
    let mut i: usize = 0;
    while i < n
        invariant
            i <= n,
            n == s@.len(),
            n == lit@.len(),
            forall|k: int| 0 <= k < i ==> lower_char(s@[k]) == lit@[k],
        decreases n - i,
    {
        if lower_char_exec(s.get_char(i)) != lit.get_char(i) {
            proof {
                assert(lower_seq(s@)[i as int] != lit@[i as int]);
            }
            return false;
        }
        i = i + 1;
    }
    proof {
        assert(lower_seq(s@) =~= lit@);
    }
    true
}

impl Language {
    /// The language a file extension stands for, compared without regard to
    /// ASCII case; anything unrecognised is `Unknown`.
    pub fn from_extension(ext: &str) -> (r: Language)
        ensures
            r == language_of(lower_seq(ext@)),
    {
        if matches_lowered(ext, "rs") {
            Language::Rust
        } else if matches_lowered(ext, "js") || matches_lowered(ext, "mjs") {
            Language::JavaScript
        } else if matches_lowered(ext, "ts") || matches_lowered(ext, "tsx") {
            Language::TypeScript
        } else if matches_lowered(ext, "py") {
            Language::Python
        } else if matches_lowered(ext, "json") {
            Language::Json
        } else if matches_lowered(ext, "toml") {
            Language::Toml
        } else if matches_lowered(ext, "md") {
            Language::Markdown
        } else if matches_lowered(ext, "html") {
            Language::Html
        } else if matches_lowered(ext, "css") {
            Language::Css
        } else if matches_lowered(ext, "sh") || matches_lowered(ext, "bash") {
            Language::Shell
        } else {
            Language::Unknown
        }
    }
}

/// Body of an open request.
#[derive(Debug)]
pub struct OpenRequest {
    /// Path of the file to open.
    pub path: String,
}

/// Answer to a save request.
#[derive(Debug, PartialEq)]
pub struct SaveResponse {
    /// Whether the buffer was written out.
    pub success: bool,
}

/// Body of a buffer update.
#[derive(Debug)]
pub struct UpdateBufferRequest {
    /// The buffer's new full content.
    pub content: String,
}

/// Answer to a buffer update.
#[derive(Debug, PartialEq)]
pub struct UpdateBufferResponse {
    /// Whether the buffer existed and was replaced.
    pub success: bool,
}

/// Answer to a close request.
#[derive(Debug, PartialEq)]
pub struct CloseBufferResponse {
    /// Whether the buffer existed and was closed.
    pub success: bool,
}

} // verus!
