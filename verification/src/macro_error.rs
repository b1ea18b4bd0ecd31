//! The errors of the macros that embed the configuration and the assets, and the messages
//! with which they stop the compilation.

use vstd::prelude::*;
use vstd::string::*;

verus! {

/// What stands in the message for a missing output directory.
pub const ENV_OUT_DIR: &'static str =
    "Unable to find OUT_DIR environmental variable from tauri-macros";

/// What stands in the message for a missing manifest directory.
pub const ENV_CARGO_MANIFEST_DIR: &'static str =
    "Unable to find CARGO_MANIFEST_DIR environmental variable from tauri-macros";

/// What stands in the message for an asset outside the included directory.
pub const INCLUDE_DIR_PREFIX: &'static str =
    "Invalid directory prefix encountered while including assets";

/// Opens the message for a failed read or write, up to the kind of failure.
pub const IO_OPEN: &'static str = "IO error ";

/// Between the kind of failure and the path.
pub const IO_JOIN: &'static str = " encountered for ";

/// Closes the message for a failed read or write.
pub const IO_CLOSE: &'static str = " during tauri-macros";

/// Why a macro could not do its work.
#[derive(Clone, Debug, PartialEq, Eq)]
pub enum Error {
    /// The build's output directory is not known.
    EnvOutDir,
    /// The directory of the manifest is not known.
    EnvCargoManifestDir,
    /// An asset does not lie under the directory that is included.
    IncludeDirPrefix,
    /// Reading or writing `path` failed; `kind` names the kind of failure.
    Io { path: String, kind: String },
}

/// An error as text.
pub enum ErrorView {
    EnvOutDir,
    EnvCargoManifestDir,
    IncludeDirPrefix,
    Io { path: Seq<char>, kind: Seq<char> },
}

impl View for Error {
    type V = ErrorView;

    open spec fn view(&self) -> ErrorView {
        match *self {
            Error::EnvOutDir => ErrorView::EnvOutDir,
            Error::EnvCargoManifestDir => ErrorView::EnvCargoManifestDir,
            Error::IncludeDirPrefix => ErrorView::IncludeDirPrefix,
            Error::Io { path, kind } => ErrorView::Io { path: path@, kind: kind@ },
        }
    }
}

/// The message with which the compilation stops on an error.
pub open spec fn message_of(error: ErrorView) -> Seq<char> {
    match error {
        ErrorView::EnvOutDir => ENV_OUT_DIR@,
        ErrorView::EnvCargoManifestDir => ENV_CARGO_MANIFEST_DIR@,
        ErrorView::IncludeDirPrefix => INCLUDE_DIR_PREFIX@,
        ErrorView::Io { path, kind } => IO_OPEN@ + kind + IO_JOIN@ + path + IO_CLOSE@,
    }
}

impl Error {
    /// The message with which the compilation stops on this error.
    pub fn message(&self) -> (message: String)
        ensures
            message@ == message_of(self@),
    {
        match self {
            Error::EnvOutDir => String::from_str(ENV_OUT_DIR),
            Error::EnvCargoManifestDir => String::from_str(ENV_CARGO_MANIFEST_DIR),
            Error::IncludeDirPrefix => String::from_str(INCLUDE_DIR_PREFIX),
            Error::Io { path, kind } => {
                let mut message = String::from_str(IO_OPEN);
                message.append(kind.as_str());
                message.append(IO_JOIN);
                message.append(path.as_str());
                message.append(IO_CLOSE);
                message
            },
        }
    }
}

} // verus!
