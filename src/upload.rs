//! The chunked upload of a resource's files, as a state machine.
//!
//! Once the server has registered the files, an [`Upload`] hands out one
//! [`Action`] at a time; the caller performs it and reports the reply with
//! [`Upload::record`]. The calls come in the order of
//! [`upload_plan`](crate::plan::upload_plan). The first failed call ends the
//! upload: nothing further is handed out, and the failure names the stage.

use vstd::prelude::*;
use crate::errors::{ClientError, UploadError};
use crate::plan::{Call, upload_plan, build_plan, lemma_upload_order};
use crate::requester::{RequestService, HttpRequest, HttpRequestView, Method};
use crate::requests::{
    FileRequest,
    CompleteFileUploadRequest,
    CompleteFileBoardUploadRequest,
    FinalizeRequest,
    complete_file_upload_json,
    empty_object_json,
};
use crate::routes::{
    upload_url,
    board_upload_url,
    upload_complete,
    finalize,
    upload_url_path,
    board_upload_url_path,
    upload_complete_path,
    finalize_path,
};

verus! {

#[derive(PartialEq, Eq, Structural, Clone, Copy, Debug)]
pub enum ResourceKind {
    Transfer,
    Board,
}

/// A file as the server registered it: its id, how many parts it is split
/// into and the size of each, and (for boards) its multipart session.
#[derive(Debug)]
pub struct RemoteFile {
    pub id: String,
    pub part_numbers: u64,
    pub chunk_size: u64,
    pub multipart_id: String,
}

pub open spec fn part_counts(files: Seq<RemoteFile>) -> Seq<u64> {
    files.map_values(|f: RemoteFile| f.part_numbers)
}

/// A local file, and what inspecting it gave: its name and size, or why it
/// could not be read.
#[derive(Debug)]
pub struct LocalFile {
    pub path: String,
    pub metadata: Result<FileRequest, String>,
}

/// Every local file was inspected.
pub open spec fn all_inspected(files: Seq<LocalFile>) -> bool {
    forall|i: int| 0 <= i < files.len() ==> (#[trigger] files[i]).metadata is Ok
}

/// What inspecting the local files gave, when every one was inspected.
pub open spec fn announced(files: Seq<LocalFile>) -> Seq<FileRequest> {
    files.map_values(|l: LocalFile| l.metadata->Ok_0)
}

/// The local sizes, when every file was inspected.
pub open spec fn local_sizes(files: Seq<LocalFile>) -> Seq<u64> {
    files.map_values(|l: LocalFile| l.metadata->Ok_0.size)
}

/// `e` reports the first local file that could not be inspected.
pub open spec fn is_first_inspection_failure(files: Seq<LocalFile>, e: UploadError) -> bool {
    exists|i: int|
        0 <= i < files.len() && (forall|j: int| 0 <= j < i ==> (#[trigger] files[j]).metadata is Ok)
            && match (#[trigger] files[i]).metadata {
            Err(cause) => e == UploadError::InspectionFailed { path: files[i].path, cause },
            Ok(_) => false,
        }
}

/// The announcements of all files, or the first file that could not be
/// inspected. Nothing is sent before this succeeds.
pub fn inspect(files: &Vec<LocalFile>) -> (r: Result<Vec<FileRequest>, UploadError>)
    ensures
        r is Ok <==> all_inspected(files@),
        match r {
            Ok(v) => v@ == announced(files@),
            Err(e) => is_first_inspection_failure(files@, e),
        },
{
    let mut out: Vec<FileRequest> = Vec::new();
    let mut i: usize = 0;
    while i < files.len()
        invariant
            i <= files.len(),
            out@.len() == i,
            forall|j: int| 0 <= j < i ==> (#[trigger] files@[j]).metadata == Ok::<FileRequest, String>(out@[j]),
        decreases files.len() - i,
    {
        match &files[i].metadata {
            Ok(info) => {
                out.push(FileRequest { name: info.name.clone(), size: info.size });
            },
            Err(cause) => {
                let e = UploadError::InspectionFailed { path: files[i].path.clone(), cause: cause.clone() };
                assert(forall|j: int| 0 <= j < i ==> (#[trigger] files@[j]).metadata is Ok);
                return Err(e);
            },
        }
        i = i + 1;
    }
    assert(out@ =~= announced(files@));
    Ok(out)
}

/// The sizes of the announced files.
pub fn sizes_of(infos: &Vec<FileRequest>) -> (r: Vec<u64>)
    ensures
        r@ == infos@.map_values(|f: FileRequest| f.size),
{
    let mut r: Vec<u64> = Vec::new();
    let mut i: usize = 0;
    while i < infos.len()
        invariant
            i <= infos.len(),
            r@.len() == i,
            forall|j: int| 0 <= j < i ==> r@[j] == (#[trigger] infos@[j]).size,
        decreases infos.len() - i,
    {
        r.push(infos[i].size);
        i = i + 1;
    }
    assert(r@ =~= infos@.map_values(|f: FileRequest| f.size));
    r
}

/// The first byte of part `part` of a file of `size` bytes cut into chunks
/// of `chunk_size` bytes.
pub open spec fn chunk_start(size: u64, chunk_size: u64, part: u64) -> int {
    if (part - 1) * chunk_size < size {
        (part - 1) * chunk_size
    } else {
        size as int
    }
}

/// The end (exclusive) of part `part`: the last part stops at the end of the file.
pub open spec fn chunk_end(size: u64, chunk_size: u64, part: u64) -> int {
    if part * chunk_size < size {
        part * chunk_size
    } else {
        size as int
    }
}

/// The offset and length of part `part`.
pub fn chunk_range(size: u64, chunk_size: u64, part: u64) -> (r: (u64, u64))
    requires
        part >= 1,
    ensures
        r.0 == chunk_start(size, chunk_size, part),
        r.0 + r.1 == chunk_end(size, chunk_size, part),
{
    let p = part as u128;
    let c = chunk_size as u128;
    assert((p - 1) * c <= p * c <= 0xffff_ffff_ffff_ffffu128 * 0xffff_ffff_ffff_ffffu128) by (nonlinear_arith)
        requires 1 <= p <= 0xffff_ffff_ffff_ffffu128, c <= 0xffff_ffff_ffff_ffffu128;
    let start_wide = (p - 1) * c;
    let end_wide = p * c;
    let start: u64 = if start_wide < size as u128 { start_wide as u64 } else { size };
    let end: u64 = if end_wide < size as u128 { end_wide as u64 } else { size };
    (start, end - start)
}

/// What the caller is to do next.
#[derive(Debug)]
pub enum Action {
    /// Send the request, which asks for a part's presigned URL, and record the
    /// URL that it answers with.
    RequestUrl { request: HttpRequest },
    /// PUT bytes `offset .. offset + len` of local file number `file`, as they
    /// are, to `url`, with no headers; a short read is sent short.
    Store { file: usize, url: String, offset: u64, len: u64 },
    /// Send the request, which marks a file as completely uploaded.
    Complete { request: HttpRequest },
    /// Send the request, which finalizes the transfer.
    Finalize { request: HttpRequest },
    /// Every call succeeded.
    Finished,
    /// A call failed; nothing further is to be done.
    Aborted { error: UploadError },
}

pub struct UploadView {
    pub requester: RequestService,
    pub kind: ResourceKind,
    pub resource_id: Seq<char>,
    pub files: Seq<RemoteFile>,
    pub sizes: Seq<u64>,
    pub plan: Seq<Call>,
    pub position: int,
    pub url: Seq<char>,
    pub failure: Option<UploadError>,
}

/// The request for the presigned URL of a part.
pub open spec fn url_request(s: UploadView, file: usize, part: u64) -> HttpRequestView {
    let f = s.files[file as int];
    match s.kind {
        ResourceKind::Transfer => s.requester.request_spec(
            Method::Get,
            upload_url_path(s.resource_id, f.id@, part),
            None,
        ),
        ResourceKind::Board => s.requester.request_spec(
            Method::Get,
            board_upload_url_path(s.resource_id, f.id@, part, f.multipart_id@),
            None,
        ),
    }
}

/// The request that marks a file as completely uploaded: with its part count
/// for a transfer, with an empty body for a board.
pub open spec fn complete_request(s: UploadView, file: usize) -> HttpRequestView {
    let f = s.files[file as int];
    match s.kind {
        ResourceKind::Transfer => s.requester.request_spec(
            Method::Put,
            upload_complete_path(s.resource_id, f.id@),
            Some(complete_file_upload_json(f.part_numbers)),
        ),
        ResourceKind::Board => s.requester.request_spec(
            Method::Put,
            upload_complete_path(s.resource_id, f.id@),
            Some(empty_object_json()),
        ),
    }
}

pub open spec fn finalize_request(s: UploadView) -> HttpRequestView {
    s.requester.request_spec(Method::Put, finalize_path(s.resource_id), Some(empty_object_json()))
}

/// `a` is what the upload in state `s` hands out.
pub open spec fn is_next_action(s: UploadView, a: Action) -> bool {
    match s.failure {
        Some(e) => a == Action::Aborted { error: e },
        None => if s.position >= s.plan.len() {
            a == Action::Finished
        } else {
            match s.plan[s.position] {
                Call::UploadUrl { file, part } => match a {
                    Action::RequestUrl { request } => request@ == url_request(s, file, part),
                    _ => false,
                },
                Call::UploadChunk { file, part } => match a {
                    Action::Store { file: index, url, offset, len } => index == file && url@ == s.url
                        && offset == chunk_start(s.sizes[file as int], s.files[file as int].chunk_size, part)
                        && offset + len == chunk_end(s.sizes[file as int], s.files[file as int].chunk_size, part),
                    _ => false,
                },
                Call::Complete { file } => match a {
                    Action::Complete { request } => request@ == complete_request(s, file),
                    _ => false,
                },
                Call::Finalize => match a {
                    Action::Finalize { request } => request@ == finalize_request(s),
                    _ => false,
                },
            }
        },
    }
}

/// The failure of the call at the current position, tagged with its stage.
pub open spec fn stage_error(s: UploadView, cause: ClientError) -> UploadError {
    match s.plan[s.position] {
        Call::UploadUrl { file, part } => UploadError::UploadFailed {
            file_id: s.files[file as int].id,
            part,
            cause,
        },
        Call::UploadChunk { file, part } => UploadError::UploadFailed {
            file_id: s.files[file as int].id,
            part,
            cause,
        },
        Call::Complete { file } => UploadError::CompletionFailed { file_id: s.files[file as int].id, cause },
        Call::Finalize => UploadError::FinalizeFailed { cause },
    }
}

/// The state after the reply to the current call: on success the next call,
/// keeping the URL that a URL request answered with; on failure the end.
pub open spec fn after_reply(s: UploadView, reply: Result<String, ClientError>) -> UploadView {
    match reply {
        Ok(text) => UploadView {
            position: s.position + 1,
            url: if s.plan[s.position] is UploadUrl {
                text@
            } else {
                s.url
            },
            ..s
        },
        Err(cause) => UploadView { failure: Some(stage_error(s, cause)), ..s },
    }
}

/// The upload state of one resource's files.
pub struct Upload {
    requester: RequestService,
    kind: ResourceKind,
    resource_id: String,
    files: Vec<RemoteFile>,
    sizes: Vec<u64>,
    plan: Vec<Call>,
    position: usize,
    url: String,
    failure: Option<UploadError>,
}

impl View for Upload {
    type V = UploadView;

    closed spec fn view(&self) -> UploadView {
        UploadView {
            requester: self.requester,
            kind: self.kind,
            resource_id: self.resource_id@,
            files: self.files@,
            sizes: self.sizes@,
            plan: self.plan@,
            position: self.position as int,
            url: self.url@,
            failure: self.failure,
        }
    }
}

impl Upload {
    #[verifier::type_invariant]
    spec fn well_formed(&self) -> bool {
        &&& self.files@.len() == self.sizes@.len()
        &&& self.files@.len() <= usize::MAX
        &&& self.plan@ == upload_plan(part_counts(self.files@), self.kind == ResourceKind::Transfer)
        &&& self.position <= self.plan@.len()
    }

    /// Starts the upload of `files`, as the server registered them, whose
    /// local sizes are `sizes`, in the same order. The server must have
    /// registered one file for each file sent.
    pub fn new(
        requester: RequestService,
        kind: ResourceKind,
        resource_id: String,
        files: Vec<RemoteFile>,
        sizes: Vec<u64>,
    ) -> (r: Result<Upload, UploadError>)
        ensures
            r is Err <==> files@.len() != sizes@.len(),
            match r {
                Ok(u) => u@ == UploadView {
                    requester,
                    kind,
                    resource_id: resource_id@,
                    files: files@,
                    sizes: sizes@,
                    plan: upload_plan(part_counts(files@), kind == ResourceKind::Transfer),
                    position: 0,
                    url: Seq::empty(),
                    failure: None,
                },
                Err(e) => e == UploadError::FileCountMismatch { sent: sizes.len(), received: files.len() },
            },
    {
        if files.len() != sizes.len() {
            return Err(UploadError::FileCountMismatch { sent: sizes.len(), received: files.len() });
        }
        let mut parts: Vec<u64> = Vec::new();
        let mut i: usize = 0;
        while i < files.len()
            invariant
                i <= files.len(),
                parts@.len() == i,
                forall|j: int| 0 <= j < i ==> parts@[j] == (#[trigger] files@[j]).part_numbers,
            decreases files.len() - i,
        {
            parts.push(files[i].part_numbers);
            i = i + 1;
        }
        assert(parts@ =~= part_counts(files@));
        let plan = build_plan(&parts, kind == ResourceKind::Transfer);
        Ok(Upload {
            requester,
            kind,
            resource_id,
            files,
            sizes,
            plan,
            position: 0,
            url: String::new(),
            failure: None,
        })
    }

    /// What to do next.
    pub fn action(&self) -> (a: Action)
        ensures
            is_next_action(self@, a),
    {
        proof {
            use_type_invariant(self);
            lemma_upload_order(part_counts(self.files@), self.kind == ResourceKind::Transfer);
        }
        if let Some(e) = &self.failure {
            return Action::Aborted { error: e.duplicate() };
        }
        if self.position >= self.plan.len() {
            return Action::Finished;
        }
        match self.plan[self.position] {
            Call::UploadUrl { file, part } => {
                let f = &self.files[file];
                let path = match self.kind {
                    ResourceKind::Transfer => upload_url(self.resource_id.as_str(), f.id.as_str(), part),
                    ResourceKind::Board => board_upload_url(
                        self.resource_id.as_str(),
                        f.id.as_str(),
                        part,
                        f.multipart_id.as_str(),
                    ),
                };
                Action::RequestUrl { request: self.requester.get(path.as_str()) }
            },
            Call::UploadChunk { file, part } => {
                let (offset, len) = chunk_range(self.sizes[file], self.files[file].chunk_size, part);
                Action::Store { file, url: self.url.clone(), offset, len }
            },
            Call::Complete { file } => {
                let f = &self.files[file];
                let path = upload_complete(self.resource_id.as_str(), f.id.as_str());
                let body = match self.kind {
                    ResourceKind::Transfer => CompleteFileUploadRequest {
                        part_numbers: f.part_numbers,
                    }.to_json(),
                    ResourceKind::Board => CompleteFileBoardUploadRequest {}.to_json(),
                };
                Action::Complete { request: self.requester.put(path.as_str(), body) }
            },
            Call::Finalize => {
                let path = finalize(self.resource_id.as_str());
                Action::Finalize { request: self.requester.put(path.as_str(), FinalizeRequest {}.to_json()) }
            },
        }
    }

    /// Records the reply to the action last handed out: for a URL request,
    /// the URL; for any other call, any text. An upload that has finished or
    /// failed stays as it is.
    pub fn record(&mut self, reply: Result<String, ClientError>)
        ensures
            old(self)@.failure is Some || old(self)@.position >= old(self)@.plan.len() ==> final(self)@
                == old(self)@,
            old(self)@.failure is None && old(self)@.position < old(self)@.plan.len() ==> final(self)@
                == after_reply(old(self)@, reply),
    {
        proof {
            use_type_invariant(&*self);
            lemma_upload_order(part_counts(self.files@), self.kind == ResourceKind::Transfer);
        }
        if self.failure.is_some() || self.position >= self.plan.len() {
            return;
        }
        match reply {
            Ok(text) => {
                if let Call::UploadUrl { .. } = self.plan[self.position] {
                    self.url = text;
                }
                self.position = self.position + 1;
            },
            Err(cause) => {
                let error = match self.plan[self.position] {
                    Call::UploadUrl { file, part } => UploadError::UploadFailed {
                        file_id: self.files[file].id.clone(),
                        part,
                        cause,
                    },
                    Call::UploadChunk { file, part } => UploadError::UploadFailed {
                        file_id: self.files[file].id.clone(),
                        part,
                        cause,
                    },
                    Call::Complete { file } => UploadError::CompletionFailed {
                        file_id: self.files[file].id.clone(),
                        cause,
                    },
                    Call::Finalize => UploadError::FinalizeFailed { cause },
                };
                self.failure = Some(error);
            },
        }
    }
}

} // verus!
