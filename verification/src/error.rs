//! The kinds of failure a bootstrap run can end with.

use vstd::prelude::*;
use vstd::string::*;

verus! {

/// Why a run, or the provisioning of one tool, was abandoned.
#[derive(Clone, Copy, Debug, PartialEq, Eq, Structural)]
pub enum ErrorKind {
    /// A request or a transfer failed.
    Network,
    /// A directory or file could not be created, removed or renamed.
    Filesystem,
    /// An archive is corrupt or of a kind that cannot be unpacked.
    Archive,
    /// The executable of a subprocess is not on the search path.
    ToolNotFound,
    /// A subprocess ended with a non-zero exit status.
    SubprocessFailure,
    /// No toolchain is known for the operating system and architecture.
    UnsupportedPlatform,
    /// A URL or an operator's answer could not be understood.
    Input,
}

impl ErrorKind {
    /// The short text of each kind.
    pub open spec fn spec_message(self) -> Seq<char> {
        match self {
            ErrorKind::Network => "network request or transfer failed"@,
            ErrorKind::Filesystem => "filesystem operation failed"@,
            ErrorKind::Archive => "unsupported archive format"@,
            ErrorKind::ToolNotFound => "command not found"@,
            ErrorKind::SubprocessFailure => "command exited with a failure status"@,
            ErrorKind::UnsupportedPlatform => "unsupported operating system or architecture"@,
            ErrorKind::Input => "input could not be understood"@,
        }
    }

    /// A short human-readable message for the error stream.
    pub fn message(self) -> (r: String)
        ensures
            r@ == self.spec_message(),
    {
        match self {
            ErrorKind::Network => String::from_str("network request or transfer failed"),
            ErrorKind::Filesystem => String::from_str("filesystem operation failed"),
            ErrorKind::Archive => String::from_str("unsupported archive format"),
            ErrorKind::ToolNotFound => String::from_str("command not found"),
            ErrorKind::SubprocessFailure => String::from_str("command exited with a failure status"),
            ErrorKind::UnsupportedPlatform => String::from_str(
                "unsupported operating system or architecture",
            ),
            ErrorKind::Input => String::from_str("input could not be understood"),
        }
    }
}

} // verus!
