//! Transfers: a bundle of files behind one public link, finalized once every
//! file is uploaded.

use vstd::prelude::*;
use vstd::string::*;
use crate::errors::{ClientError, UploadError};
use crate::plan::upload_plan;
use crate::requester::{RequestService, HttpRequest, Method};
use crate::requests::{
    CreateTransferRequest,
    CompleteFileUploadRequest,
    FinalizeRequest,
    create_transfer_json,
    complete_file_upload_json,
    empty_object_json,
};
use crate::responses::{File, Transfer};
use crate::routes::{
    resource,
    finalize,
    upload_url,
    upload_complete,
    resource_path,
    finalize_path,
    upload_url_path,
    upload_complete_path,
};
use crate::upload::{
    LocalFile,
    RemoteFile,
    ResourceKind,
    Upload,
    inspect,
    sizes_of,
    part_counts,
    all_inspected,
    announced,
    local_sizes,
    is_first_inspection_failure,
};

verus! {

/// The transfers API.
pub const TRANSFERS_URL: &'static str = "https://dev.wetransfer.com/v2/transfers";

/// `remote` is the transfer file `f` as the upload reads it.
pub open spec fn registered_transfer_file(remote: RemoteFile, f: File) -> bool {
    &&& remote.id == f.id
    &&& remote.part_numbers == f.multipart.part_numbers
    &&& remote.chunk_size == f.multipart.chunk_size
    &&& remote.multipart_id@.len() == 0
}

/// The files of a transfer, as the upload reads them.
pub fn transfer_files(files: &Vec<File>) -> (r: Vec<RemoteFile>)
    ensures
        r@.len() == files@.len(),
        forall|i: int| 0 <= i < files@.len() ==> registered_transfer_file(#[trigger] r@[i], files@[i]),
{
    let mut r: Vec<RemoteFile> = Vec::new();
    let mut i: usize = 0;
    while i < files.len()
        invariant
            i <= files.len(),
            r@.len() == i,
            forall|j: int| 0 <= j < i ==> registered_transfer_file(#[trigger] r@[j], files@[j]),
        decreases files.len() - i,
    {
        let f = &files[i];
        r.push(
            RemoteFile {
                id: f.id.clone(),
                part_numbers: f.multipart.part_numbers,
                chunk_size: f.multipart.chunk_size,
                multipart_id: String::new(),
            },
        );
        i = i + 1;
    }
    r
}

/// Builds the requests of the transfers API for one session.
#[derive(Debug)]
pub struct TransferService {
    pub requester: RequestService,
}

impl TransferService {
    pub fn new(jwt: String, app_token: String) -> (r: TransferService)
        ensures
            r.requester.jwt == jwt,
            r.requester.app_token == app_token,
            r.requester.base_url@ == TRANSFERS_URL@,
    {
        TransferService::with_base_url(jwt, app_token, String::from_str(TRANSFERS_URL))
    }

    /// A service for the transfers API found at `base_url`.
    pub fn with_base_url(jwt: String, app_token: String, base_url: String) -> (r: TransferService)
        ensures
            r.requester.jwt == jwt,
            r.requester.app_token == app_token,
            r.requester.base_url == base_url,
    {
        TransferService { requester: RequestService::new(jwt, app_token, base_url) }
    }

    /// The request for the current state of a transfer.
    pub fn find(&self, transfer_id: &str) -> (r: HttpRequest)
        ensures
            r@ == self.requester.request_spec(Method::Get, resource_path(transfer_id@), None),
    {
        self.requester.get(resource(transfer_id).as_str())
    }

    /// The request that finalizes a transfer.
    pub fn finalize(&self, transfer_id: &str) -> (r: HttpRequest)
        ensures
            r@ == self.requester.request_spec(
                Method::Put,
                finalize_path(transfer_id@),
                Some(empty_object_json()),
            ),
    {
        self.requester.put(finalize(transfer_id).as_str(), FinalizeRequest {}.to_json())
    }

    /// The request for the presigned URL of part `part` of a file.
    pub fn upload_url_for(&self, upload_id: &str, file_id: &str, part: u64) -> (r: HttpRequest)
        ensures
            r@ == self.requester.request_spec(
                Method::Get,
                upload_url_path(upload_id@, file_id@, part),
                None,
            ),
    {
        self.requester.get(upload_url(upload_id, file_id, part).as_str())
    }

    /// The request that marks a file of `part_numbers` parts as completely
    /// uploaded. It depends on its arguments alone, so it may be sent again.
    pub fn mark_as_complete(&self, upload_id: &str, file_id: &str, part_numbers: u64) -> (r: HttpRequest)
        ensures
            r@ == self.requester.request_spec(
                Method::Put,
                upload_complete_path(upload_id@, file_id@),
                Some(complete_file_upload_json(part_numbers)),
            ),
    {
        let payload = CompleteFileUploadRequest { part_numbers };
        self.requester.put(upload_complete(upload_id, file_id).as_str(), payload.to_json())
    }

    /// The request that creates a transfer of the local files with a
    /// message; or, when a file could not be inspected, the first such
    /// failure, and no request.
    pub fn create_transfer_request(&self, message: &str, files: &Vec<LocalFile>) -> (r: Result<HttpRequest, UploadError>)
        ensures
            r is Ok <==> all_inspected(files@),
            match r {
                Ok(request) => request@ == self.requester.request_spec(
                    Method::Post,
                    ""@,
                    Some(create_transfer_json(message@, announced(files@))),
                ),
                Err(e) => is_first_inspection_failure(files@, e),
            },
    {
        match inspect(files) {
            Ok(infos) => {
                let payload = CreateTransferRequest { message: String::from_str(message), files: infos };
                Ok(self.requester.post("", payload.to_json()))
            },
            Err(e) => Err(e),
        }
    }

    /// Starts the upload of the local files into the transfer that the
    /// server registered for them, as `registered` reports. The server's
    /// files answer to the local files by position.
    pub fn create(&self, files: &Vec<LocalFile>, registered: Result<Transfer, ClientError>) -> (r: Result<
        Upload,
        UploadError,
    >)
        ensures
            match registered {
                Err(cause) => r == Err::<Upload, UploadError>(UploadError::RegisterFailed { cause }),
                Ok(t) => if !all_inspected(files@) {
                    r matches Err(e) && is_first_inspection_failure(files@, e)
                } else if t.files@.len() != files@.len() {
                    r == Err::<Upload, UploadError>(
                        UploadError::FileCountMismatch { sent: files@.len() as usize, received: t.files@.len() as usize },
                    )
                } else {
                    &&& r matches Ok(u)
                    &&& u@.requester == self.requester
                    &&& u@.kind == ResourceKind::Transfer
                    &&& u@.resource_id == t.id@
                    &&& u@.files.len() == t.files@.len()
                    &&& forall|i: int| 0 <= i < t.files@.len() ==> registered_transfer_file(#[trigger] u@.files[i], t.files@[i])
                    &&& u@.sizes == local_sizes(files@)
                    &&& u@.plan == upload_plan(part_counts(u@.files), true)
                    &&& u@.position == 0
                    &&& u@.url.len() == 0
                    &&& u@.failure is None
                },
            },
    {
        match registered {
            Err(cause) => Err(UploadError::RegisterFailed { cause }),
            Ok(t) => {
                let infos = match inspect(files) {
                    Ok(infos) => infos,
                    Err(e) => return Err(e),
                };
                let sizes = sizes_of(&infos);
                assert(sizes@ =~= local_sizes(files@));
                let remote = transfer_files(&t.files);
                Upload::new(self.requester.duplicate(), ResourceKind::Transfer, t.id, remote, sizes)
            },
        }
    }
}

} // verus!
