use serde_json::Value;
use wetransfer::board::{BoardService, BOARDS_URL};
use wetransfer::client::{Client, LOGIN_URL};
use wetransfer::errors::{ClientError, WeTransferError};
use wetransfer::requester::{HttpRequest, Method, Reply, RequestService};
use wetransfer::requests::AddLink;
use wetransfer::responses::{
    Board, CompleteFileBoardUploadResponse, CompleteFileUploadResponse, File, GetUploadUrlResponse,
    Link, Login, Meta, Multipart, Transfer,
};
use wetransfer::transfer::{TransferService, TRANSFERS_URL};
use wetransfer::upload::LocalFile;
use wetransfer::requests::FileRequest;

fn header<'a>(request: &'a HttpRequest, name: &str) -> Option<&'a str> {
    request.headers.iter().find(|h| h.0.eq_ignore_ascii_case(name)).map(|h| h.1.as_str())
}

fn assert_session_headers(request: &HttpRequest) {
    assert_eq!(header(request, "Authorization"), Some("Bearer jwt-token"));
    assert_eq!(header(request, "x-api-key"), Some("1234"));
    assert_eq!(header(request, "Content-Type"), Some("application/json"));
    assert_eq!(header(request, "Accept"), Some("application/json"));
}

fn text(v: &Value, key: &str) -> String {
    v[key].as_str().unwrap_or("").to_string()
}

fn error_body(body: &str) -> Option<WeTransferError> {
    let v: Value = serde_json::from_str(body).ok()?;
    if !v.is_object() {
        return None;
    }
    Some(WeTransferError { status: v["status"].as_u64().unwrap_or(0) as u16, message: text(&v, "message") })
}

/// What a caller reports of an answer with `status` and `body`.
fn answered<T>(status: u16, body: &str, decode: fn(&Value) -> Option<T>) -> Reply<T> {
    let value = match serde_json::from_str::<Value>(body) {
        Ok(v) => decode(&v).ok_or_else(|| String::from("unexpected shape")),
        Err(e) => Err(e.to_string()),
    };
    Reply::Answered { status, value, error: error_body(body) }
}

fn decode_login(v: &Value) -> Option<Login> {
    Some(Login { success: v["success"].as_bool()?, token: text(v, "token") })
}

fn decode_url(v: &Value) -> Option<GetUploadUrlResponse> {
    Some(GetUploadUrlResponse { url: text(v, "url"), success: v["success"].as_bool().unwrap_or(false) })
}

fn decode_transfer(v: &Value) -> Option<Transfer> {
    let files = v["files"].as_array().cloned().unwrap_or_default();
    Some(Transfer {
        success: v["success"].as_bool().unwrap_or(false),
        id: text(v, "id"),
        message: text(v, "message"),
        state: text(v, "state"),
        url: v["url"].as_str().map(String::from),
        expires_at: text(v, "expires_at"),
        files: files
            .iter()
            .map(|f| File {
                multipart: Multipart {
                    part_numbers: f["multipart"]["part_numbers"].as_u64().unwrap_or(0),
                    chunk_size: f["multipart"]["chunk_size"].as_u64().unwrap_or(0),
                },
                size: f["size"].as_i64().unwrap_or(0),
                file_type: text(f, "type"),
                name: text(f, "name"),
                id: text(f, "id"),
            })
            .collect(),
    })
}

fn decode_board(v: &Value) -> Option<Board> {
    Some(Board {
        id: text(v, "id"),
        name: text(v, "name"),
        description: v["description"].as_str().map(String::from),
        state: text(v, "state"),
        url: text(v, "url"),
        items: v["items"].as_array().cloned().unwrap_or_default(),
    })
}

fn decode_links(v: &Value) -> Option<Vec<Link>> {
    Some(
        v.as_array()?
            .iter()
            .map(|l| Link {
                id: text(l, "id"),
                url: text(l, "url"),
                meta: Meta { title: text(&l["meta"], "title") },
                kind: text(l, "type"),
            })
            .collect(),
    )
}

fn decode_completion(v: &Value) -> Option<CompleteFileUploadResponse> {
    Some(CompleteFileUploadResponse {
        id: text(v, "id"),
        retries: v["retries"].as_u64()?,
        name: text(v, "name"),
        size: v["size"].as_u64()?,
        chunk_size: v["chunk_size"].as_u64()?,
    })
}

fn decode_board_completion(v: &Value) -> Option<CompleteFileBoardUploadResponse> {
    Some(CompleteFileBoardUploadResponse { success: v["success"].as_bool()?, message: text(v, "message") })
}

const CREATE_TRANSFER: &str = "{\"success\":true,\"id\":\"32a6ef6003f1429be0cf1674dd8fbdef20181019143517\",\"message\":\"foo\",\"state\":\"uploading\",\"url\":null,\"expires_at\":\"2018-10-26T14:35:17Z\",\"files\":[{\"multipart\":{\"part_numbers\":1,\"chunk_size\":212},\"size\":212,\"type\":\"file\",\"name\":\"Cargo.toml\",\"id\":\"c964caf6c54343f3b6e9610cb4ac5ea220181019143517\"}]}";

const FINALIZED_TRANSFER: &str = "{\"success\":true,\"id\":\"041bae61-adb4-4ba2-80eb-48719396f0e3\",\"message\":\"foo\",\"state\":\"processing\",\"url\":\"https://we.tl/t-12344657\",\"expires_at\":\"2018-10-26T14:35:17Z\",\"files\":[]}";

#[test]
fn it_creates_transfers() {
    let service = TransferService::new("jwt-token".into(), "1234".into());
    let files = vec![LocalFile {
        path: String::from("Cargo.toml"),
        metadata: Ok(FileRequest { name: String::from("Cargo.toml"), size: 212 }),
    }];
    let request = service.create_transfer_request("foo", &files).unwrap();
    assert_eq!(request.method, Method::Post);
    assert_eq!(request.url, TRANSFERS_URL);
    assert_session_headers(&request);
    assert_eq!(
        request.body.as_deref(),
        Some("{\"message\":\"foo\",\"files\":[{\"name\":\"Cargo.toml\",\"size\":212}]}")
    );
    let transfer_request =
        RequestService::handle_response(answered(201, CREATE_TRANSFER, decode_transfer)).unwrap();
    assert!(transfer_request.success);
    assert_eq!(transfer_request.id, "32a6ef6003f1429be0cf1674dd8fbdef20181019143517");
    assert_eq!(transfer_request.message, "foo");
    assert_eq!(transfer_request.state, "uploading");
    assert_eq!(transfer_request.url, None);
    assert_eq!(transfer_request.files[0].multipart.part_numbers, 1);
    assert_eq!(transfer_request.files[0].multipart.chunk_size, 212);
    assert_eq!(transfer_request.files[0].file_type, "file");
    assert_eq!(transfer_request.files[0].name, "Cargo.toml");
    assert_eq!(transfer_request.files[0].id, "c964caf6c54343f3b6e9610cb4ac5ea220181019143517");
}

#[test]
fn transfer_it_requests_s3_urls_for_uploading_parts() {
    let upload_id = "041bae61-adb4-4ba2-80eb-48719396f0e3";
    let file_id = "783b21e9-f8f1-46d5-894c-62954109d11d";
    let path = format!("/{}/files/{}/upload-url/1", upload_id, file_id);
    let service = TransferService::new("jwt-token".into(), "1234".into());
    let request = service.upload_url_for(upload_id, file_id, 1);
    assert_eq!(request.method, Method::Get);
    assert_eq!(request.url, format!("{}{}", TRANSFERS_URL, path));
    assert_eq!(request.body, None);
    assert_session_headers(&request);
    let body = "{\"success\": true, \"url\":\"https://s3-wetransfer.com/uploadhere\"}";
    let upload_url_request = RequestService::handle_response(answered(201, body, decode_url)).unwrap();
    assert!(upload_url_request.success);
    assert_eq!(upload_url_request.url, "https://s3-wetransfer.com/uploadhere");
}

#[test]
fn it_completes_file_uploads() {
    let upload_id = "041bae61-adb4-4ba2-80eb-48719396f0e3";
    let file_id = "783b21e9-f8f1-46d5-894c-62954109d11d";
    let path = format!("/{}/files/{}/upload-complete", upload_id, file_id);
    let service = TransferService::new("jwt-token".into(), "1234".into());
    let request = service.mark_as_complete(upload_id, file_id, 1);
    assert_eq!(request.method, Method::Put);
    assert_eq!(request.url, format!("{}{}", TRANSFERS_URL, path));
    assert_eq!(request.body.as_deref(), Some("{\"part_numbers\":1}"));
    assert_session_headers(&request);
    let body = "{\"id\":\"783b21e9-f8f1-46d5-894c-62954109d11d\",\"retries\":0,\"name\":\"Cargo.toml\",\"size\":212,\"chunk_size\":212}";
    let result = RequestService::handle_response(answered(200, body, decode_completion));
    assert!(result.is_ok());
}

#[test]
fn it_finalizes_transfers() {
    let upload_id = "041bae61-adb4-4ba2-80eb-48719396f0e3";
    let path = format!("/{}/finalize", upload_id);
    let service = TransferService::new("jwt-token".into(), "1234".into());
    let request = service.finalize(upload_id);
    assert_eq!(request.method, Method::Put);
    assert_eq!(request.url, format!("{}{}", TRANSFERS_URL, path));
    assert_eq!(request.body.as_deref(), Some("{}"));
    assert_session_headers(&request);
    let transfer = RequestService::handle_response(answered(200, FINALIZED_TRANSFER, decode_transfer)).unwrap();
    assert_eq!(transfer.id, upload_id);
    assert_eq!(transfer.url.unwrap(), "https://we.tl/t-12344657");
    assert_eq!(transfer.state, "processing");
}

#[test]
fn it_finds_transfers_by_id() {
    let upload_id = "041bae61-adb4-4ba2-80eb-48719396f0e3";
    let path = format!("/{}", upload_id);
    let service = TransferService::new("jwt-token".into(), "1234".into());
    let request = service.find(upload_id);
    assert_eq!(request.method, Method::Get);
    assert_eq!(request.url, format!("{}{}", TRANSFERS_URL, path));
    assert_session_headers(&request);
    let transfer = RequestService::handle_response(answered(200, FINALIZED_TRANSFER, decode_transfer)).unwrap();
    assert_eq!(transfer.id, upload_id);
    assert_eq!(transfer.url.unwrap(), "https://we.tl/t-12344657");
    assert_eq!(transfer.state, "processing");
}

#[test]
fn it_creates_boards() {
    let instance = BoardService::new("jwt-token".into(), "1234".into());
    let request = instance.create("xd", None);
    assert_eq!(request.method, Method::Post);
    assert_eq!(request.url, format!("{}/", BOARDS_URL));
    assert_eq!(request.body.as_deref(), Some("{\"name\":\"xd\"}"));
    assert_session_headers(&request);
    let body = "{\"id\":\"swnoauod92ugkkhbj20190126151445\",\"name\":\"xd\",\"state\":\"downloadable\",\"url\":\"https://we.tl/b-swnoauod92\",\"items\":[]}";
    let result = RequestService::handle_response(answered(201, body, decode_board));
    assert!(result.is_ok());
    let response = result.unwrap();
    assert_eq!(response.id, "swnoauod92ugkkhbj20190126151445");
    assert_eq!(response.name, "xd");
    assert_eq!(response.description, None);
    assert_eq!(response.state, "downloadable");
}

#[test]
fn it_add_links() {
    let instance = BoardService::new("jwt-token".into(), "1234".into());
    let mut links: Vec<AddLink> = Vec::new();
    links.push(AddLink { url: String::from("https://wetransfer.com"), title: String::from("WeTransfer") });
    let request = instance.add_links("id-board", &links);
    assert_eq!(request.method, Method::Post);
    assert_eq!(request.url, format!("{}/id-board/links", BOARDS_URL));
    assert_eq!(
        request.body.as_deref(),
        Some("[{\"url\":\"https://wetransfer.com\",\"title\":\"WeTransfer\"}]")
    );
    assert_session_headers(&request);
    let body = "[{\"id\":\"random-hash\",\"url\":\"https://wetransfer.com/\",\"meta\":{\"title\":\"WeTransfer\"},\"type\":\"link\"}]";
    let result = RequestService::handle_response(answered(200, body, decode_links));
    assert!(result.is_ok());
    let response = result.unwrap();
    assert_eq!(response[0].id, String::from("random-hash"));
    assert_eq!(response[0].url, String::from("https://wetransfer.com/"));
    assert_eq!(response[0].kind, String::from("link"));
    assert_eq!(response[0].meta.title, String::from("WeTransfer"));
}

#[test]
fn board_it_requests_s3_urls_for_uploading_parts() {
    let upload_id = "041bae61-adb4-4ba2-80eb-48719396f0e3";
    let file_id = "783b21e9-f8f1-46d5-894c-62954109d11d";
    let multipart_id = "multipart_id";
    let path = format!("/{}/files/{}/upload-url/{}/{}", upload_id, file_id, 1, multipart_id);
    let service = BoardService::new("jwt-token".into(), "1234".into());
    let request = service.upload_url_for(upload_id, file_id, 1, multipart_id);
    assert_eq!(request.method, Method::Get);
    assert_eq!(request.url, format!("{}{}", BOARDS_URL, path));
    assert_session_headers(&request);
    let body = "{\"success\": true, \"url\":\"https://s3-wetransfer.com/uploadhere\"}";
    let upload_url_request = RequestService::handle_response(answered(201, body, decode_url)).unwrap();
    assert!(upload_url_request.success);
    assert_eq!(upload_url_request.url, "https://s3-wetransfer.com/uploadhere");
}

#[test]
fn it_completes_file_board_uploads() {
    let upload_id = "041bae61-adb4-4ba2-80eb-48719396f0e3";
    let file_id = "783b21e9-f8f1-46d5-894c-62954109d11d";
    let path = format!("/{}/files/{}/upload-complete", upload_id, file_id);
    let service = BoardService::new("jwt-token".into(), "1234".into());
    let request = service.mark_as_complete(upload_id, file_id);
    assert_eq!(request.method, Method::Put);
    assert_eq!(request.url, format!("{}{}", BOARDS_URL, path));
    assert_eq!(request.body.as_deref(), Some("{}"));
    assert_session_headers(&request);
    let body = "{\"success\":true,\"message\":\"File is marked as complete.\"}";
    let result = RequestService::handle_response(answered(200, body, decode_board_completion));
    assert!(result.is_ok());
}

#[test]
fn it_logins() {
    let app_token = "1234";
    let request = Client::login(app_token);
    assert_eq!(request.method, Method::Post);
    assert_eq!(request.url, LOGIN_URL);
    assert_eq!(request.headers, vec![(String::from("x-api-key"), String::from(app_token))]);
    assert_eq!(request.body, None);
    let body = "{\"token\": \"jwt_token\", \"success\": true}";
    let login = RequestService::handle_response(answered(200, body, decode_login));
    let client_creation = Client::new(app_token.to_string(), login);
    assert!(client_creation.is_ok());
    let client = client_creation.unwrap();
    assert_eq!(client.transfers.requester.jwt, "jwt_token");
    assert_eq!(client.boards.requester.jwt, "jwt_token");
    assert_eq!(client.boards.requester.app_token, "1234");
}

#[test]
fn it_returns_error() {
    let app_token = "1234";
    let body = "{\"message\": \"You suck.\", \"success\": false}";
    let login = RequestService::handle_response(answered(401, body, decode_login));
    let error = Client::new(app_token.to_string(), login).unwrap_err();
    match &error {
        ClientError::ApiRejected { message, .. } => assert_eq!(message, "You suck."),
        other => panic!("unexpected error {:?}", other),
    }
    assert_eq!(error.status(), 401);
}

#[test]
fn it_uploads_files_to_s3() {
    let result = RequestService::file_upload(Ok(200));
    assert!(result.is_ok());
}

#[test]
fn storage_rejection_is_not_a_decode_error() {
    let result = RequestService::file_upload(Ok(500));
    match result {
        Err(ClientError::StorageUploadFailed { status }) => assert_eq!(status, 500),
        other => panic!("unexpected result {:?}", other),
    }
}

#[test]
fn storage_unreachable() {
    match RequestService::file_upload(Err(String::from("connection refused"))) {
        Err(ClientError::TransportFailed { message }) => assert_eq!(message, "connection refused"),
        other => panic!("unexpected result {:?}", other),
    }
}

#[test]
fn malformed_error_body() {
    let result = RequestService::handle_response(answered(500, "", decode_login));
    match result {
        Err(ClientError::DecodeFailed { message }) => assert_eq!(message, "malformed error body"),
        other => panic!("unexpected result {:?}", other),
    }
}

#[test]
fn unexpected_success_body() {
    let result = RequestService::handle_response(answered(200, "[1, 2]", decode_login));
    assert!(matches!(result, Err(ClientError::DecodeFailed { .. })));
    let garbage = RequestService::handle_response(answered(200, "not json", decode_login));
    match garbage {
        Err(error) => assert_eq!(error.status(), 0),
        Ok(_) => panic!("garbage decoded"),
    }
}

#[test]
fn error_status_comes_from_transport() {
    let body = "{\"status\": 200, \"message\": \"no\"}";
    match RequestService::handle_response(answered(403, body, decode_login)) {
        Err(ClientError::ApiRejected { status, message }) => {
            assert_eq!(status, 403);
            assert_eq!(message, "no");
        }
        other => panic!("unexpected result {:?}", other),
    }
}

#[test]
fn unreachable_api() {
    let reply: Reply<Login> = Reply::Unreachable { message: String::from("timed out") };
    match RequestService::handle_response(reply) {
        Err(ClientError::TransportFailed { message }) => assert_eq!(message, "timed out"),
        other => panic!("unexpected result {:?}", other),
    }
}

#[test]
fn completion_request_is_the_same_when_replayed() {
    let service = TransferService::new("jwt-token".into(), "1234".into());
    let first = service.mark_as_complete("t", "f", 3);
    let second = service.mark_as_complete("t", "f", 3);
    assert_eq!(first.method, second.method);
    assert_eq!(first.url, second.url);
    assert_eq!(first.headers, second.headers);
    assert_eq!(first.body, second.body);
    assert_eq!(first.body.as_deref(), Some("{\"part_numbers\":3}"));
}

#[test]
fn services_use_their_base_url() {
    let transfers = TransferService::with_base_url("j".into(), "k".into(), "http://localhost:1234".into());
    assert_eq!(transfers.find("abc").url, "http://localhost:1234/abc");
    let boards = BoardService::with_base_url("j".into(), "k".into(), "http://localhost:1234".into());
    let local = vec![LocalFile {
        path: String::from("/tmp/a.jpg"),
        metadata: Ok(FileRequest { name: String::from("a.jpg"), size: 5 }),
    }];
    let request = boards.start_file_uploads("b1", &local).unwrap();
    assert_eq!(request.url, "http://localhost:1234/b1/files");
    assert_eq!(request.body.as_deref(), Some("[{\"name\":\"a.jpg\",\"size\":5}]"));
}
