//! Errors: the error body that the API sends, the failures of one call, and
//! the failures of an upload, tagged with the stage at which they occurred.

use vstd::prelude::*;

verus! {

/// The error body that the API answers with on a failed call. The body does
/// not reliably carry `status`: the transport's status code is put in its place.
#[derive(Debug, Default)]
pub struct WeTransferError {
    pub status: u16,
    pub message: String,
}

/// How one call to the API or to the storage endpoint failed.
#[derive(Debug)]
pub enum ClientError {
    /// No answer came: the connection failed.
    TransportFailed { message: String },
    /// The API answered with an error status and an error body.
    ApiRejected { status: u16, message: String },
    /// The storage endpoint refused a chunk.
    StorageUploadFailed { status: u16 },
    /// An answer's body did not have the expected shape.
    DecodeFailed { message: String },
}

pub open spec fn client_error_status(e: ClientError) -> u16 {
    match e {
        ClientError::ApiRejected { status, .. } => status,
        ClientError::StorageUploadFailed { status } => status,
        _ => 0,
    }
}

impl ClientError {
    /// The transport's status code; 0 where no status applies.
    pub fn status(&self) -> (r: u16)
        ensures
            r == client_error_status(*self),
    {
        match self {
            ClientError::ApiRejected { status, .. } => *status,
            ClientError::StorageUploadFailed { status } => *status,
            _ => 0,
        }
    }

    /// A copy of this error.
    pub fn duplicate(&self) -> (r: ClientError)
        ensures
            r == *self,
    {
        match self {
            ClientError::TransportFailed { message } => ClientError::TransportFailed {
                message: message.clone(),
            },
            ClientError::ApiRejected { status, message } => ClientError::ApiRejected {
                status: *status,
                message: message.clone(),
            },
            ClientError::StorageUploadFailed { status } => ClientError::StorageUploadFailed {
                status: *status,
            },
            ClientError::DecodeFailed { message } => ClientError::DecodeFailed {
                message: message.clone(),
            },
        }
    }
}

/// Why an upload stopped.
#[derive(Debug)]
pub enum UploadError {
    /// A local file could not be inspected; no call was made.
    InspectionFailed { path: String, cause: String },
    /// The call that registers the files failed.
    RegisterFailed { cause: ClientError },
    /// The server registered another number of files than were sent.
    FileCountMismatch { sent: usize, received: usize },
    /// Asking for the upload URL of a part, or storing the part, failed.
    UploadFailed { file_id: String, part: u64, cause: ClientError },
    /// Marking a file as completely uploaded failed.
    CompletionFailed { file_id: String, cause: ClientError },
    /// Finalizing the transfer failed.
    FinalizeFailed { cause: ClientError },
}

impl UploadError {
    /// A copy of this error.
    pub fn duplicate(&self) -> (r: UploadError)
        ensures
            r == *self,
    {
        match self {
            UploadError::InspectionFailed { path, cause } => UploadError::InspectionFailed {
                path: path.clone(),
                cause: cause.clone(),
            },
            UploadError::RegisterFailed { cause } => UploadError::RegisterFailed {
                cause: cause.duplicate(),
            },
            UploadError::FileCountMismatch { sent, received } => UploadError::FileCountMismatch {
                sent: *sent,
                received: *received,
            },
            UploadError::UploadFailed { file_id, part, cause } => UploadError::UploadFailed {
                file_id: file_id.clone(),
                part: *part,
                cause: cause.duplicate(),
            },
            UploadError::CompletionFailed { file_id, cause } => UploadError::CompletionFailed {
                file_id: file_id.clone(),
                cause: cause.duplicate(),
            },
            UploadError::FinalizeFailed { cause } => UploadError::FinalizeFailed {
                cause: cause.duplicate(),
            },
        }
    }
}

} // verus!
