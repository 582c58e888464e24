//! The paths of the API's endpoints, under the base URL of transfers or boards.

use vstd::prelude::*;
use vstd::string::*;
use crate::json::{decimal, decimal_string};

verus! {

pub open spec fn resource_path(id: Seq<char>) -> Seq<char> {
    "/"@ + id
}

pub open spec fn finalize_path(id: Seq<char>) -> Seq<char> {
    "/"@ + id + "/finalize"@
}

pub open spec fn files_path(id: Seq<char>) -> Seq<char> {
    "/"@ + id + "/files"@
}

pub open spec fn links_path(id: Seq<char>) -> Seq<char> {
    "/"@ + id + "/links"@
}

pub open spec fn upload_url_path(id: Seq<char>, file_id: Seq<char>, part: u64) -> Seq<char> {
    "/"@ + id + "/files/"@ + file_id + "/upload-url/"@ + decimal(part as nat)
}

pub open spec fn board_upload_url_path(
    id: Seq<char>,
    file_id: Seq<char>,
    part: u64,
    multipart_id: Seq<char>,
) -> Seq<char> {
    upload_url_path(id, file_id, part) + "/"@ + multipart_id
}

pub open spec fn upload_complete_path(id: Seq<char>, file_id: Seq<char>) -> Seq<char> {
    "/"@ + id + "/files/"@ + file_id + "/upload-complete"@
}

/// `/{id}`
pub fn resource(id: &str) -> (r: String)
    ensures
        r@ == resource_path(id@),
{
    let mut r = String::from_str("/");
    r.append(id);
    r
}

/// `/{id}/finalize`
pub fn finalize(id: &str) -> (r: String)
    ensures
        r@ == finalize_path(id@),
{
    let mut r = resource(id);
    r.append("/finalize");
    r
}

/// `/{id}/files`
pub fn files(id: &str) -> (r: String)
    ensures
        r@ == files_path(id@),
{
    let mut r = resource(id);
    r.append("/files");
    r
}

/// `/{id}/links`
pub fn links(id: &str) -> (r: String)
    ensures
        r@ == links_path(id@),
{
    let mut r = resource(id);
    r.append("/links");
    r
}

/// `/{id}/files/{file_id}/upload-url/{part}`
pub fn upload_url(id: &str, file_id: &str, part: u64) -> (r: String)
    ensures
        r@ == upload_url_path(id@, file_id@, part),
{
    let mut r = resource(id);
    r.append("/files/");
    r.append(file_id);
    r.append("/upload-url/");
    r.append(decimal_string(part).as_str());
    r
}

/// `/{id}/files/{file_id}/upload-url/{part}/{multipart_id}`
pub fn board_upload_url(id: &str, file_id: &str, part: u64, multipart_id: &str) -> (r: String)
    ensures
        r@ == board_upload_url_path(id@, file_id@, part, multipart_id@),
{
    let mut r = upload_url(id, file_id, part);
    r.append("/");
    r.append(multipart_id);
    r
}

/// `/{id}/files/{file_id}/upload-complete`
pub fn upload_complete(id: &str, file_id: &str) -> (r: String)
    ensures
        r@ == upload_complete_path(id@, file_id@),
{
    let mut r = resource(id);
    r.append("/files/");
    r.append(file_id);
    r.append("/upload-complete");
    r
}

} // verus!
