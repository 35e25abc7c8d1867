//! Failures of writing an output file.

use vstd::prelude::*;

verus! {

/// Why an output file could not be written. `source` is the report of the operating system.
#[derive(Debug)]
pub enum FileError {
    /// The directory that should hold the file could not be made.
    CreateDir { path: String, source: String },
    /// The file itself could not be made.
    CreateFile { path: String, source: String },
}

/// The text of a `FileError` for the file `path` and the report `source`.
pub open spec fn file_error_text(in_directory: bool, path: Seq<char>, source: Seq<char>) -> Seq<
    char,
> {
    if in_directory {
        "Failed to create parent directory for "@ + path + ": "@ + source
    } else {
        "Failed to create "@ + path + ": "@ + source
    }
}

impl FileError {
    /// The error in words.
    pub fn message(&self) -> (out: String)
        ensures
            out@ == match *self {
                FileError::CreateDir { path, source } => file_error_text(true, path@, source@),
                FileError::CreateFile { path, source } => file_error_text(false, path@, source@),
            },
    {
        match self {
            FileError::CreateDir { path, source } => {
                let mut out = String::from_str("Failed to create parent directory for ");
                out.append(path.as_str());
                out.append(": ");
                out.append(source.as_str());
                out
            },
            FileError::CreateFile { path, source } => {
                let mut out = String::from_str("Failed to create ");
                out.append(path.as_str());
                out.append(": ");
                out.append(source.as_str());
                out
            },
        }
    }
}

} // verus!
