//! Boards: persistent collections of files and links. A board needs no
//! finalization: files and links can be added at any time.

use vstd::prelude::*;
use vstd::string::*;
use crate::errors::{ClientError, UploadError};
use crate::plan::upload_plan;
use crate::requester::{RequestService, HttpRequest, Method, text_of};
use crate::requests::{
    AddLink,
    CreateBoardRequest,
    CompleteFileBoardUploadRequest,
    add_links_to_json,
    file_requests_to_json,
    create_board_json,
    add_links_json,
    file_requests_json,
    empty_object_json,
};
use crate::responses::FileBoard;
use crate::routes::{
    files,
    links,
    board_upload_url,
    upload_complete,
    files_path,
    links_path,
    board_upload_url_path,
    upload_complete_path,
};
use crate::upload::{
    LocalFile,
    RemoteFile,
    ResourceKind,
    Upload,
    inspect,
    sizes_of,
    part_counts,
    all_inspected,
    announced,
    local_sizes,
    is_first_inspection_failure,
};

verus! {

/// The boards API.
pub const BOARDS_URL: &'static str = "https://dev.wetransfer.com/v2/boards";

/// `remote` is the board file `f` as the upload reads it.
pub open spec fn registered_board_file(remote: RemoteFile, f: FileBoard) -> bool {
    &&& remote.id == f.id
    &&& remote.part_numbers == f.multipart.part_numbers
    &&& remote.chunk_size == f.multipart.chunk_size
    &&& remote.multipart_id == f.multipart.id
}

/// The files added to a board, as the upload reads them.
pub fn board_files(added: &Vec<FileBoard>) -> (r: Vec<RemoteFile>)
    ensures
        r@.len() == added@.len(),
        forall|i: int| 0 <= i < added@.len() ==> registered_board_file(#[trigger] r@[i], added@[i]),
{
    let mut r: Vec<RemoteFile> = Vec::new();
    let mut i: usize = 0;
    while i < added.len()
        invariant
            i <= added.len(),
            r@.len() == i,
            forall|j: int| 0 <= j < i ==> registered_board_file(#[trigger] r@[j], added@[j]),
        decreases added.len() - i,
    {
        let f = &added[i];
        r.push(
            RemoteFile {
                id: f.id.clone(),
                part_numbers: f.multipart.part_numbers,
                chunk_size: f.multipart.chunk_size,
                multipart_id: f.multipart.id.clone(),
            },
        );
        i = i + 1;
    }
    r
}

/// Builds the requests of the boards API for one session.
#[derive(Debug)]
pub struct BoardService {
    pub requester: RequestService,
}

impl BoardService {
    pub fn new(jwt: String, app_token: String) -> (r: BoardService)
        ensures
            r.requester.jwt == jwt,
            r.requester.app_token == app_token,
            r.requester.base_url@ == BOARDS_URL@,
    {
        BoardService::with_base_url(jwt, app_token, String::from_str(BOARDS_URL))
    }

    /// A service for the boards API found at `base_url`.
    pub fn with_base_url(jwt: String, app_token: String, base_url: String) -> (r: BoardService)
        ensures
            r.requester.jwt == jwt,
            r.requester.app_token == app_token,
            r.requester.base_url == base_url,
    {
        BoardService { requester: RequestService::new(jwt, app_token, base_url) }
    }

    /// The request that creates a board; the body carries a description only
    /// when one is given.
    pub fn create(&self, name: &str, description: Option<String>) -> (r: HttpRequest)
        ensures
            r@ == self.requester.request_spec(
                Method::Post,
                "/"@,
                Some(create_board_json(name@, text_of(description))),
            ),
    {
        let payload = CreateBoardRequest { name: String::from_str(name), description };
        self.requester.post("/", payload.to_json())
    }

    /// The request that pins links on a board, in one call.
    pub fn add_links(&self, board_id: &str, links_to_add: &Vec<AddLink>) -> (r: HttpRequest)
        ensures
            r@ == self.requester.request_spec(
                Method::Post,
                links_path(board_id@),
                Some(add_links_json(links_to_add@)),
            ),
    {
        self.requester.post(links(board_id).as_str(), add_links_to_json(links_to_add))
    }

    /// The request that announces the local files to a board; or, when a
    /// file could not be inspected, the first such failure, and no request.
    pub fn start_file_uploads(&self, board_id: &str, local: &Vec<LocalFile>) -> (r: Result<HttpRequest, UploadError>)
        ensures
            r is Ok <==> all_inspected(local@),
            match r {
                Ok(request) => request@ == self.requester.request_spec(
                    Method::Post,
                    files_path(board_id@),
                    Some(file_requests_json(announced(local@))),
                ),
                Err(e) => is_first_inspection_failure(local@, e),
            },
    {
        match inspect(local) {
            Ok(infos) => Ok(self.requester.post(files(board_id).as_str(), file_requests_to_json(&infos))),
            Err(e) => Err(e),
        }
    }

    /// Starts the upload of the local files into the board, which registered
    /// them as `registered` reports. The server's files answer to the local
    /// files by position.
    pub fn add_files(&self, board_id: String, local: &Vec<LocalFile>, registered: Result<Vec<FileBoard>, ClientError>) -> (r: Result<
        Upload,
        UploadError,
    >)
        ensures
            match registered {
                Err(cause) => r == Err::<Upload, UploadError>(UploadError::RegisterFailed { cause }),
                Ok(added) => if !all_inspected(local@) {
                    r matches Err(e) && is_first_inspection_failure(local@, e)
                } else if added@.len() != local@.len() {
                    r == Err::<Upload, UploadError>(
                        UploadError::FileCountMismatch { sent: local@.len() as usize, received: added@.len() as usize },
                    )
                } else {
                    &&& r matches Ok(u)
                    &&& u@.requester == self.requester
                    &&& u@.kind == ResourceKind::Board
                    &&& u@.resource_id == board_id@
                    &&& u@.files.len() == added@.len()
                    &&& forall|i: int| 0 <= i < added@.len() ==> registered_board_file(#[trigger] u@.files[i], added@[i])
                    &&& u@.sizes == local_sizes(local@)
                    &&& u@.plan == upload_plan(part_counts(u@.files), false)
                    &&& u@.position == 0
                    &&& u@.url.len() == 0
                    &&& u@.failure is None
                },
            },
    {
        match registered {
            Err(cause) => Err(UploadError::RegisterFailed { cause }),
            Ok(added) => {
                let infos = match inspect(local) {
                    Ok(infos) => infos,
                    Err(e) => return Err(e),
                };
                let sizes = sizes_of(&infos);
                assert(sizes@ =~= local_sizes(local@));
                let remote = board_files(&added);
                Upload::new(self.requester.duplicate(), ResourceKind::Board, board_id, remote, sizes)
            },
        }
    }

    /// The request for the presigned URL of part `part` of a file in its
    /// multipart session.
    pub fn upload_url_for(&self, board_id: &str, file_id: &str, part: u64, multipart_id: &str) -> (r: HttpRequest)
        ensures
            r@ == self.requester.request_spec(
                Method::Get,
                board_upload_url_path(board_id@, file_id@, part, multipart_id@),
                None,
            ),
    {
        self.requester.get(board_upload_url(board_id, file_id, part, multipart_id).as_str())
    }

    /// The request that marks a board's file as completely uploaded. It
    /// depends on its arguments alone, so it may be sent again.
    pub fn mark_as_complete(&self, board_id: &str, file_id: &str) -> (r: HttpRequest)
        ensures
            r@ == self.requester.request_spec(
                Method::Put,
                upload_complete_path(board_id@, file_id@),
                Some(empty_object_json()),
            ),
    {
        let payload = CompleteFileBoardUploadRequest {};
        self.requester.put(upload_complete(board_id, file_id).as_str(), payload.to_json())
    }
}

} // verus!
