//! Agent-side data: the built-in tools' own state and rules, and the shapes
//! stored by the code memory. Running commands and talking to models stays
//! with the caller.

use vstd::prelude::*;
use vstd::string::StringExecFns;

verus! {

/// Echoes its input back; exists to exercise the tool plumbing.
#[derive(Debug)]
pub struct EchoTool;

/// Runs a fixed allowlist of read-only shell commands.
#[derive(Debug)]
pub struct ShellTool {
    /// The only commands the tool will run.
    pub allowed_commands: Vec<String>,
}

impl Default for ShellTool {
    /// The standard allowlist: ten read-only commands.
    fn default() -> (r: Self)
        ensures
            r.allowed_commands@.len() == 10,
            r.allowed_commands@[0]@ == "ls"@,
            r.allowed_commands@[1]@ == "cat"@,
            r.allowed_commands@[2]@ == "head"@,
            r.allowed_commands@[3]@ == "tail"@,
            r.allowed_commands@[4]@ == "grep"@,
            r.allowed_commands@[5]@ == "find"@,
            r.allowed_commands@[6]@ == "wc"@,
            r.allowed_commands@[7]@ == "echo"@,
            r.allowed_commands@[8]@ == "pwd"@,
            r.allowed_commands@[9]@ == "date"@,
    {
        let mut allowed_commands: Vec<String> = Vec::new();
        allowed_commands.push(String::from_str("ls"));
        allowed_commands.push(String::from_str("cat"));
        allowed_commands.push(String::from_str("head"));
        allowed_commands.push(String::from_str("tail"));
        allowed_commands.push(String::from_str("grep"));
        allowed_commands.push(String::from_str("find"));
        allowed_commands.push(String::from_str("wc"));
        allowed_commands.push(String::from_str("echo"));
        allowed_commands.push(String::from_str("pwd"));
        allowed_commands.push(String::from_str("date"));
        ShellTool { allowed_commands }
    }
}

impl ShellTool {
    /// The security check the tool applies before running anything: only a
    /// command on the allowlist may run.
    pub fn is_allowed(&self, command: &str) -> (b: bool)
        ensures
            b == exists|i: int|
                0 <= i < self.allowed_commands@.len() && (#[trigger] self.allowed_commands@[i])@
                    == command@,
    {
        let key: String = command.to_owned();
        let n = self.allowed_commands.len();
        let mut i: usize = 0;
        while i < n
            invariant
                i <= n,
                n == self.allowed_commands@.len(),
                key@ == command@,
                forall|k: int| 0 <= k < i ==> (#[trigger] self.allowed_commands@[k])@ != command@,
            decreases n - i,
        {
            if self.allowed_commands[i] == key {
                return true;
            }
            i = i + 1;
        }
        false
    }
}

/// What kind of content an embedding stands for.
#[derive(Debug, PartialEq, Eq)]
pub enum ContentType {
    /// Source code.
    Code,
    /// Conversation turns.
    Chat,
    /// Mission records.
    Mission,
    /// Whole files.
    File,
}

/// The text each content type renders as.
pub open spec fn content_type_label(c: &ContentType) -> Seq<char> {
    match c {
        ContentType::Code => "code"@,
        ContentType::Chat => "chat"@,
        ContentType::Mission => "mission"@,
        ContentType::File => "file"@,
    }
}

impl ContentType {
    /// The type's wire name.
    pub fn label(&self) -> (r: String)
        ensures
            r@ == content_type_label(self),
    {
        match self {
            ContentType::Code => String::from_str("code"),
            ContentType::Chat => String::from_str("chat"),
            ContentType::Mission => String::from_str("mission"),
            ContentType::File => String::from_str("file"),
        }
    }
}

/// A chunk of code cut out for semantic search.
#[derive(Debug)]
pub struct CodeChunk {
    /// File the chunk came from.
    pub file_path: String,
    /// Language of that file.
    pub language: String,
    /// What the chunk is: a function, class, module or block.
    pub chunk_type: String,
    /// The item's name, when it has one.
    pub name: Option<String>,
    /// First line of the chunk.
    pub start_line: i32,
    /// Last line of the chunk.
    pub end_line: i32,
    /// The chunk's text.
    pub content: String,
}

} // verus!
