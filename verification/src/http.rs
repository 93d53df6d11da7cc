use vstd::prelude::*;
use vstd::string::StringExecFns;

verus! {

/// What came of looking for a file and reading it.
pub enum FileOutcome {
    /// No file is at the path.
    Missing,
    /// The file was read; this is its text.
    Read(String),
    /// The file is there but could not be read; this is the reason.
    Failed(String),
}

/// Status of a response that carries the file.
pub const STATUS_OK: u16 = 200;

/// Status of a response for a path that leads to no file.
pub const STATUS_NOT_FOUND: u16 = 404;

/// Status of a response for a file that could not be read.
pub const STATUS_INTERNAL_SERVER_ERROR: u16 = 500;

/// The status that answers a request for a file.
pub open spec fn response_status(outcome: FileOutcome) -> u16 {
    match outcome {
        FileOutcome::Missing => STATUS_NOT_FOUND,
        FileOutcome::Read(_) => STATUS_OK,
        FileOutcome::Failed(_) => STATUS_INTERNAL_SERVER_ERROR,
    }
}

/// The body that answers a request for the file at `path`.
pub open spec fn response_body(path: Seq<char>, outcome: FileOutcome) -> Seq<char> {
    match outcome {
        FileOutcome::Missing => "File "@ + path + " note found"@,
        FileOutcome::Read(text) => text@,
        FileOutcome::Failed(reason) => reason@,
    }
}

/// Answers a request for the file at `path`, given what came of reading it:
/// the file's text, or why there is none.
pub fn file_response(path: &str, outcome: FileOutcome) -> (response: (u16, String))
    ensures
        response.0 == response_status(outcome),
        response.1@ == response_body(path@, outcome),
{
    match outcome {
        FileOutcome::Missing => (
            STATUS_NOT_FOUND,
            String::from_str("File ").concat(path).concat(" note found"),
        ),
        FileOutcome::Read(text) => (STATUS_OK, text),
        FileOutcome::Failed(reason) => (STATUS_INTERNAL_SERVER_ERROR, reason),
    }
}

} // verus!
