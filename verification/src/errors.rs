//! The failure taxonomy of the updater.

use vstd::prelude::*;

verus! {

/// One failure kind per pipeline step.  Every step propagates its failure
/// immediately to the top level; there is no retry and no rollback.
#[derive(Debug)]
pub enum UpdateError {
    /// The metadata request could not complete.
    NetworkError { message: String },
    /// The metadata body was not a JSON object holding the expected fields.
    DecodeError { message: String },
    /// The artifact download was refused: a non-success HTTP status (carried
    /// here) or, with `status` of `None`, a response without a content length.
    DownloadError { status: Option<u16>, message: String },
    /// The executable bit could not be set on the downloaded artifact.
    PermissionError { message: String },
    /// The self-extraction subprocess exited non-zero; the message carries
    /// its captured standard-error text.
    ExtractionError { message: String },
    /// A required environment variable is unset.
    ConfigError { message: String },
    /// A filesystem read, write, copy or rename failed.
    IOError { message: String },
}

impl UpdateError {
    /// The human-readable text of the failure.
    pub open spec fn spec_message(&self) -> Seq<char> {
        match self {
            UpdateError::NetworkError { message } => message@,
            UpdateError::DecodeError { message } => message@,
            UpdateError::DownloadError { status, message } => message@,
            UpdateError::PermissionError { message } => message@,
            UpdateError::ExtractionError { message } => message@,
            UpdateError::ConfigError { message } => message@,
            UpdateError::IOError { message } => message@,
        }
    }

    /// The human-readable text of the failure.
    pub fn message(&self) -> (r: String)
        ensures
            r@ == self.spec_message(),
    {
        match self {
            UpdateError::NetworkError { message } => message.clone(),
            UpdateError::DecodeError { message } => message.clone(),
            UpdateError::DownloadError { status, message } => message.clone(),
            UpdateError::PermissionError { message } => message.clone(),
            UpdateError::ExtractionError { message } => message.clone(),
            UpdateError::ConfigError { message } => message.clone(),
            UpdateError::IOError { message } => message.clone(),
        }
    }
}

} // verus!
