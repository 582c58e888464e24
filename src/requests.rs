//! Request bodies, and the JSON text that each one is sent as.

use vstd::prelude::*;
use vstd::string::*;
use crate::json::{json_string, quote, decimal, decimal_string};

verus! {

/// The body that creates a transfer.
#[derive(Debug)]
pub struct CreateTransferRequest {
    pub message: String,
    pub files: Vec<FileRequest>,
}

/// A file announced for upload: its name and its size in bytes.
#[derive(Debug)]
pub struct FileRequest {
    pub name: String,
    pub size: u64,
}

/// The body that marks a transfer's file as completely uploaded.
#[derive(Debug, Default)]
pub struct CompleteFileUploadRequest {
    pub part_numbers: u64,
}

/// The (empty) body that finalizes a transfer.
#[derive(Debug)]
pub struct FinalizeRequest {}

/// The body that creates a board.
#[derive(Debug)]
pub struct CreateBoardRequest {
    pub name: String,
    pub description: Option<String>,
}

/// A link to pin on a board.
#[derive(Debug)]
pub struct AddLink {
    pub url: String,
    pub title: String,
}

/// The (empty) body that marks a board's file as completely uploaded.
#[derive(Debug)]
pub struct CompleteFileBoardUploadRequest {}

/// `"key":` followed by `value`.
pub open spec fn member(key: Seq<char>, value: Seq<char>) -> Seq<char> {
    json_string(key) + ":"@ + value
}

/// The items, separated by commas.
pub open spec fn comma_separated(items: Seq<Seq<char>>) -> Seq<char>
    decreases items.len(),
{
    if items.len() == 0 {
        Seq::empty()
    } else if items.len() == 1 {
        items[0]
    } else {
        comma_separated(items.drop_last()) + ","@ + items.last()
    }
}

/// A JSON array of the given encoded items.
pub open spec fn json_array(items: Seq<Seq<char>>) -> Seq<char> {
    "["@ + comma_separated(items) + "]"@
}

pub open spec fn file_request_json(f: FileRequest) -> Seq<char> {
    "{\"name\":"@ + json_string(f.name@) + ",\"size\":"@ + decimal(f.size as nat) + "}"@
}

pub open spec fn file_requests_json(files: Seq<FileRequest>) -> Seq<char> {
    json_array(files.map_values(|f: FileRequest| file_request_json(f)))
}

pub open spec fn create_transfer_json(message: Seq<char>, files: Seq<FileRequest>) -> Seq<char> {
    "{\"message\":"@ + json_string(message) + ",\"files\":"@ + file_requests_json(files) + "}"@
}

pub open spec fn complete_file_upload_json(part_numbers: u64) -> Seq<char> {
    "{\"part_numbers\":"@ + decimal(part_numbers as nat) + "}"@
}

pub open spec fn empty_object_json() -> Seq<char> {
    "{}"@
}

/// A board request names the board, and carries a `description` member only
/// when a description is given.
pub open spec fn create_board_json(name: Seq<char>, description: Option<Seq<char>>) -> Seq<char> {
    match description {
        None => "{\"name\":"@ + json_string(name) + "}"@,
        Some(d) => "{\"name\":"@ + json_string(name) + ",\"description\":"@ + json_string(d) + "}"@,
    }
}

pub open spec fn add_link_json(link: AddLink) -> Seq<char> {
    "{\"url\":"@ + json_string(link.url@) + ",\"title\":"@ + json_string(link.title@) + "}"@
}

pub open spec fn add_links_json(links: Seq<AddLink>) -> Seq<char> {
    json_array(links.map_values(|l: AddLink| add_link_json(l)))
}

impl FileRequest {
    pub fn to_json(&self) -> (r: String)
        ensures
            r@ == file_request_json(*self),
    {
        let mut r = String::from_str("{\"name\":");
        r.append(quote(self.name.as_str()).as_str());
        r.append(",\"size\":");
        r.append(decimal_string(self.size).as_str());
        r.append("}");
        r
    }
}

/// Encodes a list of file announcements as a JSON array.
pub fn file_requests_to_json(files: &Vec<FileRequest>) -> (r: String)
    ensures
        r@ == file_requests_json(files@),
{
    let ghost items = files@.map_values(|f: FileRequest| file_request_json(f));
    let mut body = String::from_str("[");
    let mut i: usize = 0;
    while i < files.len()
        invariant
            i <= files.len(),
            items == files@.map_values(|f: FileRequest| file_request_json(f)),
            body@ == "["@ + comma_separated(items.take(i as int)),
        decreases files.len() - i,
    {
        if i > 0 {
            body.append(",");
        }
        body.append(files[i].to_json().as_str());
        proof {
            assert(items.take(i + 1).drop_last() =~= items.take(i as int));
            if i == 0 {
                assert(comma_separated(items.take(0)) =~= Seq::empty());
            }
        }
        i += 1;
    }
    body.append("]");
    assert(items.take(files.len() as int) =~= items);
    body
}

impl CreateTransferRequest {
    pub fn to_json(&self) -> (r: String)
        ensures
            r@ == create_transfer_json(self.message@, self.files@),
    {
        let mut r = String::from_str("{\"message\":");
        r.append(quote(self.message.as_str()).as_str());
        r.append(",\"files\":");
        r.append(file_requests_to_json(&self.files).as_str());
        r.append("}");
        r
    }
}

impl CompleteFileUploadRequest {
    pub fn to_json(&self) -> (r: String)
        ensures
            r@ == complete_file_upload_json(self.part_numbers),
    {
        let mut r = String::from_str("{\"part_numbers\":");
        r.append(decimal_string(self.part_numbers).as_str());
        r.append("}");
        r
    }
}

impl FinalizeRequest {
    pub fn to_json(&self) -> (r: String)
        ensures
            r@ == empty_object_json(),
    {
        String::from_str("{}")
    }
}

impl CompleteFileBoardUploadRequest {
    pub fn to_json(&self) -> (r: String)
        ensures
            r@ == empty_object_json(),
    {
        String::from_str("{}")
    }
}

impl CreateBoardRequest {
    pub fn to_json(&self) -> (r: String)
        ensures
            r@ == create_board_json(
                self.name@,
                match self.description {
                    Some(d) => Some(d@),
                    None => None,
                },
            ),
    {
        let mut r = String::from_str("{\"name\":");
        r.append(quote(self.name.as_str()).as_str());
        match &self.description {
            Some(d) => {
                r.append(",\"description\":");
                r.append(quote(d.as_str()).as_str());
            },
            None => {},
        }
        r.append("}");
        r
    }
}

impl AddLink {
    pub fn to_json(&self) -> (r: String)
        ensures
            r@ == add_link_json(*self),
    {
        let mut r = String::from_str("{\"url\":");
        r.append(quote(self.url.as_str()).as_str());
        r.append(",\"title\":");
        r.append(quote(self.title.as_str()).as_str());
        r.append("}");
        r
    }
}

/// Encodes a list of links as a JSON array.
pub fn add_links_to_json(links: &Vec<AddLink>) -> (r: String)
    ensures
        r@ == add_links_json(links@),
{
    let ghost items = links@.map_values(|l: AddLink| add_link_json(l));
    let mut body = String::from_str("[");
    let mut i: usize = 0;
    while i < links.len()
        invariant
            i <= links.len(),
            items == links@.map_values(|l: AddLink| add_link_json(l)),
            body@ == "["@ + comma_separated(items.take(i as int)),
        decreases links.len() - i,
    {
        if i > 0 {
            body.append(",");
        }
        body.append(links[i].to_json().as_str());
        proof {
            assert(items.take(i + 1).drop_last() =~= items.take(i as int));
            if i == 0 {
                assert(comma_separated(items.take(0)) =~= Seq::empty());
            }
        }
        i += 1;
    }
    body.append("]");
    assert(items.take(links.len() as int) =~= items);
    body
}

} // verus!
