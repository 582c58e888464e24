//! The shapes of the API's answers.

use vstd::prelude::*;

verus! {

/// A JSON value of any shape, carried through unread.
#[verifier::external_type_specification]
#[verifier::external_body]
pub struct ExValue(serde_json::Value);

/// The answer to a login.
#[derive(Debug, Default)]
pub struct Login {
    pub success: bool,
    pub token: String,
}

/// A transfer: a bundle of files behind one public link.
#[derive(Debug, Default)]
pub struct Transfer {
    pub success: bool,
    pub id: String,
    pub message: String,
    pub state: String,
    pub url: Option<String>,
    pub expires_at: String,
    pub files: Vec<File>,
}

/// A file of a transfer.
#[derive(Debug, Default)]
pub struct File {
    pub multipart: Multipart,
    pub size: i64,
    pub file_type: String,
    pub name: String,
    pub id: String,
}

/// How a transfer's file is to be split: the number of parts and the size
/// in bytes of each.
#[derive(Debug, Default)]
pub struct Multipart {
    pub part_numbers: u64,
    pub chunk_size: u64,
}

/// The answer to a request for a presigned upload URL.
#[derive(Debug, Default)]
pub struct GetUploadUrlResponse {
    pub url: String,
    pub success: bool,
}

/// The answer to marking a transfer's file as completely uploaded.
#[derive(Debug, Default, Clone)]
pub struct CompleteFileUploadResponse {
    pub id: String,
    pub retries: u64,
    pub name: String,
    pub size: u64,
    pub chunk_size: u64,
}

/// A board, where links and files can be pinned.
#[derive(Debug, Default, Clone, PartialEq)]
pub struct Board {
    pub id: String,
    pub name: String,
    pub description: Option<String>,
    pub state: String,
    pub url: String,
    pub items: Vec<serde_json::Value>,
}

/// A board item that shows an external website.
#[derive(Debug, Default, Clone, PartialEq)]
pub struct Link {
    pub id: String,
    pub url: String,
    pub meta: Meta,
    pub kind: String,
}

#[derive(Debug, Default, Clone, PartialEq)]
pub struct Meta {
    pub title: String,
}

/// A board item that holds a file.
#[derive(Debug, Default, Clone, PartialEq)]
pub struct FileBoard {
    pub id: String,
    pub name: String,
    pub size: u64,
    pub multipart: MultipartFileBoard,
    pub kind: String,
}

/// How a board's file is to be split; `id` names the multipart session.
#[derive(Debug, Default, Clone, PartialEq)]
pub struct MultipartFileBoard {
    pub id: String,
    pub part_numbers: u64,
    pub chunk_size: u64,
}

/// The answer to marking a board's file as completely uploaded.
#[derive(Debug, Default, Clone, PartialEq)]
pub struct CompleteFileBoardUploadResponse {
    pub success: bool,
    pub message: String,
}

} // verus!
