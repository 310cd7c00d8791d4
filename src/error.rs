use vstd::prelude::*;

verus! {

/// Every way an invocation can fail.
#[derive(Debug, Clone)]
pub enum GfError {
    /// The home directory could not be determined.
    HomeDirectoryUnavailable,
    /// The pattern directory could not be read.
    DirectoryUnreadable,
    /// The pattern directory could not be created.
    DirectoryCreationFailure,
    /// A pattern file could not be written after it was created.
    WriteFailure,
    /// Saving was asked for without a name, or with an empty one.
    EmptyName,
    /// Saving was asked for without a pattern, or with an empty one.
    EmptyPattern,
    /// A pattern was to be used but no name was given.
    NameRequired,
    /// The file at this path already exists.
    AlreadyExists(String),
    /// No pattern file exists for this name.
    NotFound(String),
    /// The pattern file at this path could not be decoded.
    Malformed(String),
    /// The pattern file at this path holds neither `pattern` nor a non-empty `patterns`.
    NoPatternContent(String),
    /// The engine could not be launched.
    SpawnFailure,
}

/// The text `a`, then `b`, then `c`.
pub open spec fn framed(a: Seq<char>, b: Seq<char>, c: Seq<char>) -> Seq<char> {
    a + b + c
}

impl GfError {
    /// What the error says to the user.
    pub open spec fn text(&self) -> Seq<char> {
        match self {
            GfError::HomeDirectoryUnavailable => "Could not determine home directory"@,
            GfError::DirectoryUnreadable => "Failed to read pattern directory"@,
            GfError::DirectoryCreationFailure => "Failed to create pattern directory"@,
            GfError::WriteFailure => "Failed to write pattern file"@,
            GfError::EmptyName => "Name cannot be empty"@,
            GfError::EmptyPattern => "Pattern cannot be empty"@,
            GfError::NameRequired => "Pattern name is required"@,
            GfError::AlreadyExists(p) => framed(
                "Failed to create pattern file '"@,
                p@,
                "': file may already exist"@,
            ),
            GfError::NotFound(n) => framed("No such pattern '"@, n@, "'"@),
            GfError::Malformed(p) => framed("Pattern file '"@, p@, "' is malformed"@),
            GfError::NoPatternContent(p) => framed(
                "Pattern file '"@,
                p@,
                "' contains no pattern(s)"@,
            ),
            GfError::SpawnFailure => "Failed to execute command"@,
        }
    }

    /// The message shown for this error.
    pub fn message(&self) -> (r: String)
        ensures
            r@ == self.text(),
    {
        match self {
            GfError::HomeDirectoryUnavailable => String::from_str(
                "Could not determine home directory",
            ),
            GfError::DirectoryUnreadable => String::from_str("Failed to read pattern directory"),
            GfError::DirectoryCreationFailure => String::from_str(
                "Failed to create pattern directory",
            ),
            GfError::WriteFailure => String::from_str("Failed to write pattern file"),
            GfError::EmptyName => String::from_str("Name cannot be empty"),
            GfError::EmptyPattern => String::from_str("Pattern cannot be empty"),
            GfError::NameRequired => String::from_str("Pattern name is required"),
            GfError::AlreadyExists(p) => frame(
                "Failed to create pattern file '",
                p.as_str(),
                "': file may already exist",
            ),
            GfError::NotFound(n) => frame("No such pattern '", n.as_str(), "'"),
            GfError::Malformed(p) => frame("Pattern file '", p.as_str(), "' is malformed"),
            GfError::NoPatternContent(p) => frame(
                "Pattern file '",
                p.as_str(),
                "' contains no pattern(s)",
            ),
            GfError::SpawnFailure => String::from_str("Failed to execute command"),
        }
    }
}

/// Builds `a`, then `b`, then `c` as one string.
pub fn frame(a: &str, b: &str, c: &str) -> (r: String)
    ensures
        r@ == framed(a@, b@, c@),
{
    let mut s = String::from_str(a);
    s.append(b);
    s.append(c);
    s
}

} // verus!
