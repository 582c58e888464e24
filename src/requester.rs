//! Requests to the API, and the reading of its answers.
//!
//! A request is a plain value: the caller sends it over the network and
//! reports what came back as a [`Reply`], which [`RequestService::handle_response`]
//! turns into a result or a typed error.

use vstd::prelude::*;
use vstd::string::*;
use crate::errors::{ClientError, WeTransferError};

verus! {

#[derive(PartialEq, Eq, Structural, Clone, Copy, Debug)]
pub enum Method {
    Get,
    Post,
    Put,
}

/// One HTTP request: method, full URL, headers and an optional JSON body.
#[derive(Debug)]
pub struct HttpRequest {
    pub method: Method,
    pub url: String,
    pub headers: Vec<(String, String)>,
    pub body: Option<String>,
}

pub struct HttpRequestView {
    pub method: Method,
    pub url: Seq<char>,
    pub headers: Seq<(Seq<char>, Seq<char>)>,
    pub body: Option<Seq<char>>,
}

pub open spec fn text_of(s: Option<String>) -> Option<Seq<char>> {
    match s {
        Some(t) => Some(t@),
        None => None,
    }
}

impl View for HttpRequest {
    type V = HttpRequestView;

    open spec fn view(&self) -> HttpRequestView {
        HttpRequestView {
            method: self.method,
            url: self.url@,
            headers: self.headers@.map_values(|h: (String, String)| (h.0@, h.1@)),
            body: text_of(self.body),
        }
    }
}

/// The headers of every API call: the application key, the bearer token and
/// JSON content negotiation.
pub open spec fn api_headers(jwt: Seq<char>, app_token: Seq<char>) -> Seq<(Seq<char>, Seq<char>)> {
    seq![
        ("x-api-key"@, app_token),
        ("content-type"@, "application/json"@),
        ("authorization"@, "Bearer "@ + jwt),
        ("accept"@, "application/json"@),
    ]
}

/// What the caller saw of an API call. On an answer, `value` is the body
/// decoded as the expected result, or why that failed; `error` is the body
/// decoded as an error body, if it is one.
pub enum Reply<T> {
    Unreachable { message: String },
    Answered { status: u16, value: Result<T, String>, error: Option<WeTransferError> },
}

/// A 2xx status.
pub open spec fn is_success(status: u16) -> bool {
    200 <= status < 300
}

/// Builds the requests of one API (transfers or boards) for one session.
#[derive(Debug)]
pub struct RequestService {
    pub jwt: String,
    pub app_token: String,
    pub base_url: String,
}

impl RequestService {
    /// The request that the session sends for `path` under the base URL.
    pub open spec fn request_spec(
        &self,
        method: Method,
        path: Seq<char>,
        body: Option<Seq<char>>,
    ) -> HttpRequestView {
        HttpRequestView {
            method,
            url: self.base_url@ + path,
            headers: api_headers(self.jwt@, self.app_token@),
            body,
        }
    }

    pub fn new(jwt: String, app_token: String, base_url: String) -> (r: RequestService)
        ensures
            r.jwt == jwt,
            r.app_token == app_token,
            r.base_url == base_url,
    {
        RequestService { jwt, app_token, base_url }
    }

    /// A copy of this service.
    pub fn duplicate(&self) -> (r: RequestService)
        ensures
            r == *self,
    {
        RequestService {
            jwt: self.jwt.clone(),
            app_token: self.app_token.clone(),
            base_url: self.base_url.clone(),
        }
    }

    fn construct_headers(&self) -> (r: Vec<(String, String)>)
        ensures
            r@.map_values(|h: (String, String)| (h.0@, h.1@)) == api_headers(
                self.jwt@,
                self.app_token@,
            ),
    {
        let mut bearer = String::from_str("Bearer ");
        bearer.append(self.jwt.as_str());
        let mut headers: Vec<(String, String)> = Vec::new();
        headers.push((String::from_str("x-api-key"), self.app_token.clone()));
        headers.push((String::from_str("content-type"), String::from_str("application/json")));
        headers.push((String::from_str("authorization"), bearer));
        headers.push((String::from_str("accept"), String::from_str("application/json")));
        assert(headers@.map_values(|h: (String, String)| (h.0@, h.1@)) =~= api_headers(
            self.jwt@,
            self.app_token@,
        ));
        headers
    }

    fn request(&self, method: Method, path: &str, body: Option<String>) -> (r: HttpRequest)
        ensures
            r@ == self.request_spec(method, path@, text_of(body)),
    {
        let mut url = self.base_url.clone();
        url.append(path);
        HttpRequest { method, url, headers: self.construct_headers(), body }
    }

    /// A GET of `path`.
    pub fn get(&self, path: &str) -> (r: HttpRequest)
        ensures
            r@ == self.request_spec(Method::Get, path@, None),
    {
        self.request(Method::Get, path, None)
    }

    /// A POST of `payload`, a JSON text, to `path`.
    pub fn post(&self, path: &str, payload: String) -> (r: HttpRequest)
        ensures
            r@ == self.request_spec(Method::Post, path@, Some(payload@)),
    {
        self.request(Method::Post, path, Some(payload))
    }

    /// A PUT of `payload`, a JSON text, to `path`.
    pub fn put(&self, path: &str, payload: String) -> (r: HttpRequest)
        ensures
            r@ == self.request_spec(Method::Put, path@, Some(payload@)),
    {
        self.request(Method::Put, path, Some(payload))
    }

    /// Reads the reply to an API call. A 2xx answer gives its decoded body, or
    /// `DecodeFailed` where it did not decode. Any other status gives the
    /// error body with the transport's status put in, or `DecodeFailed` where
    /// the error body is malformed. No answer gives `TransportFailed`.
    pub fn handle_response<T>(reply: Reply<T>) -> (r: Result<T, ClientError>)
        ensures
            match reply {
                Reply::Unreachable { message } => r == Err::<T, ClientError>(
                    ClientError::TransportFailed { message },
                ),
                Reply::Answered { status, value, error } => if is_success(status) {
                    match value {
                        Ok(v) => r == Ok::<T, ClientError>(v),
                        Err(m) => r == Err::<T, ClientError>(ClientError::DecodeFailed { message: m }),
                    }
                } else {
                    match error {
                        Some(e) => r == Err::<T, ClientError>(
                            ClientError::ApiRejected { status, message: e.message },
                        ),
                        None => match r {
                            Err(ClientError::DecodeFailed { message }) => message@
                                == "malformed error body"@,
                            _ => false,
                        },
                    }
                },
            },
    {
        match reply {
            Reply::Unreachable { message } => Err(ClientError::TransportFailed { message }),
            Reply::Answered { status, value, error } => {
                if 200 <= status && status < 300 {
                    match value {
                        Ok(v) => Ok(v),
                        Err(m) => Err(ClientError::DecodeFailed { message: m }),
                    }
                } else {
                    match error {
                        Some(e) => Err(ClientError::ApiRejected { status, message: e.message }),
                        None => Err(
                            ClientError::DecodeFailed {
                                message: String::from_str("malformed error body"),
                            },
                        ),
                    }
                }
            },
        }
    }

    /// Reads the reply to a raw chunk upload: the status the storage
    /// endpoint answered with, or why no answer came. Any status but a 2xx is
    /// `StorageUploadFailed`, whatever the body held.
    pub fn file_upload(reply: Result<u16, String>) -> (r: Result<(), ClientError>)
        ensures
            match reply {
                Ok(status) => if is_success(status) {
                    r == Ok::<(), ClientError>(())
                } else {
                    r == Err::<(), ClientError>(ClientError::StorageUploadFailed { status })
                },
                Err(message) => r == Err::<(), ClientError>(ClientError::TransportFailed { message }),
            },
    {
        match reply {
            Ok(status) => {
                if 200 <= status && status < 300 {
                    Ok(())
                } else {
                    Err(ClientError::StorageUploadFailed { status })
                }
            },
            Err(message) => Err(ClientError::TransportFailed { message }),
        }
    }
}

} // verus!
