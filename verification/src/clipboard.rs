//! Clipboard integration model: the error taxonomy and the backend trait
//! that a clipboard implementation provides.

use vstd::prelude::*;
use vstd::string::StringExecFns;

verus! {

/// A failure while handing an image to the clipboard.
#[derive(Debug, Clone)]
pub enum ClipboardError {
    OpenFile { path: String, message: String },
    CommandIo { command: String, message: String },
    CommandFailed { status: String },
}

impl ClipboardError {
    /// A human-readable description of the failure.
    pub fn message(&self) -> (r: String)
        ensures
            *self matches ClipboardError::OpenFile { path, message } ==> r@
                == "failed to open file "@ + path@ + ": "@ + message@,
            *self matches ClipboardError::CommandIo { command, message } ==> r@
                == "failed to run wl-copy command: "@ + command@,
            *self matches ClipboardError::CommandFailed { status } ==> r@
                == "wl-copy exited with non-zero status: "@ + status@,
    {
        match self {
            ClipboardError::OpenFile { path, message } => {
                let mut out = "failed to open file ".to_owned();
                out.append(path.as_str());
                out.append(": ");
                out.append(message.as_str());
                out
            },
            ClipboardError::CommandIo { command, message: _ } => {
                let mut out = "failed to run wl-copy command: ".to_owned();
                out.append(command.as_str());
                out
            },
            ClipboardError::CommandFailed { status } => {
                let mut out = "wl-copy exited with non-zero status: ".to_owned();
                out.append(status.as_str());
                out
            },
        }
    }
}

pub type ClipboardResult<T> = Result<T, ClipboardError>;

/// A clipboard backend: hands the PNG file at `path` to the clipboard.
pub trait ClipboardBackend {
    fn copy_png_file(&self, path: &str) -> ClipboardResult<()>;
}

} // verus!
