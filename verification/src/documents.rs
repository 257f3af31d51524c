//! The messages of the documents service.

use vstd::prelude::*;

verus! {

/// A request to store one file in a room.
#[derive(Clone, Debug)]
pub struct SaveFilesRequest {
    pub user_id: String,
    pub file_name: String,
    pub doc_type: i32,
    pub room_id: String,
    pub data: Vec<u8>,
}

/// The answer to a [`SaveFilesRequest`].
#[derive(Clone, Debug)]
pub struct SaveFilesResponse {
    pub successful: bool,
    pub file_id: String,
    pub info_message: String,
}

/// A request for one stored file.
#[derive(Clone, Debug)]
pub struct GetFileRequest {
    pub user_id: String,
    pub file_id: String,
}

/// The answer to a [`GetFileRequest`]: the file's bytes and identity.
#[derive(Clone, Debug)]
pub struct GetFileResponse {
    pub data: Vec<u8>,
    pub file_id: String,
    pub file_name: String,
}

/// The answer to a request that shares a file with another user.
#[derive(Clone, Debug)]
pub struct AddUserToFileResponse {
    pub successful: bool,
}

} // verus!
