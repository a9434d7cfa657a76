//! Payloads of the file endpoints.

use vstd::prelude::*;

verus! {

/// The query of a directory listing.
#[derive(Debug)]
pub struct FileListQuery {
    pub parent_file_id: i64,
    pub limit: u8,
    pub search_data: Option<String>,
    pub search_mode: Option<u8>,
    pub last_file_id: Option<i64>,
}

/// The query for one file.
#[derive(Debug)]
pub struct FileQuery {
    pub file_id: i64,
}

/// The request for the details of several files.
#[derive(Debug)]
pub struct FilesQuery {
    pub file_ids: Vec<u64>,
}

/// The request to create a directory.
#[allow(non_snake_case)]
#[derive(Debug)]
pub struct EntryItem {
    pub name: String,
    pub parentID: u64,
}

/// The directory that was created.
#[allow(non_snake_case)]
#[derive(Debug)]
pub struct EntryInfo {
    pub dirID: u64,
}

/// The request to move files into another directory.
#[allow(non_snake_case)]
#[derive(Debug)]
pub struct FileMoveInfo {
    pub fileIDs: Vec<u64>,
    pub toParentFileID: u64,
}

/// The query of a search below a directory.
#[derive(Debug, Clone)]
pub struct FileSearchItem {
    pub parent_file_id: u64,
    pub limit: u8,
    pub search_data: Option<String>,
    pub search_mode: Option<String>,
    pub last_file_id: Option<i64>,
}

/// Where a file can be downloaded.
#[derive(Debug, Clone)]
pub struct DownloadUrlData {
    pub download_url: String,
}

/// The request to register a file for upload.
#[derive(Debug, Clone)]
pub struct UploadFileItem {
    pub parent_file_id: u64,
    pub filename: String,
    pub etag: String,
    pub size: u64,
    pub duplicate: Option<u8>,
    pub contain_dir: Option<bool>,
}

/// What the platform answers when a file is registered for upload.
#[derive(Debug)]
pub struct UploadFileData {
    pub file_id: Option<u64>,
    pub reuse: bool,
    pub preupload_id: String,
    pub slice_size: u64,
    pub servers: Vec<String>,
}

impl UploadFileData {
    pub fn new(
        file_id: Option<u64>,
        reuse: bool,
        preupload_id: String,
        slice_size: u64,
        servers: Vec<String>,
    ) -> (r: UploadFileData)
        ensures
            r.file_id == file_id,
            r.reuse == reuse,
            r.preupload_id == preupload_id,
            r.slice_size == slice_size,
            r.servers == servers,
    {
        UploadFileData {
            file_id: file_id,
            reuse: reuse,
            preupload_id: preupload_id,
            slice_size: slice_size,
            servers: servers,
        }
    }
}

/// A file that was registered for upload, as the platform's first upload
/// endpoint answers.
#[derive(Debug)]
pub struct CreateFile {
    pub file_id: i64,
    pub reuse: bool,
    pub preupload_id: String,
    pub slice_size: u64,
    pub servers: Vec<String>,
}

impl CreateFile {
    pub fn new(
        file_id: i64,
        reuse: bool,
        preupload_id: String,
        slice_size: u64,
        servers: Vec<String>,
    ) -> (r: CreateFile)
        ensures
            r.file_id == file_id,
            r.reuse == reuse,
            r.preupload_id == preupload_id,
            r.slice_size == slice_size,
            r.servers == servers,
    {
        CreateFile {
            file_id: file_id,
            reuse: reuse,
            preupload_id: preupload_id,
            slice_size: slice_size,
            servers: servers,
        }
    }
}

} // verus!
