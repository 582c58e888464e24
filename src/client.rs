//! The client: one login, then a transfers service and a boards service
//! that share its token.

use vstd::prelude::*;
use vstd::string::*;
use crate::board::{BoardService, BOARDS_URL};
use crate::errors::ClientError;
use crate::requester::{HttpRequest, HttpRequestView, Method};
use crate::responses::Login;
use crate::transfer::{TransferService, TRANSFERS_URL};

verus! {

/// The login endpoint.
pub const LOGIN_URL: &'static str = "https://dev.wetransfer.com/v2/authorize";

/// The login request: a POST that carries the application key alone.
pub open spec fn login_request(app_token: Seq<char>) -> HttpRequestView {
    HttpRequestView {
        method: Method::Post,
        url: LOGIN_URL@,
        headers: seq![("x-api-key"@, app_token)],
        body: None,
    }
}

#[derive(Debug)]
pub struct Client {
    pub transfers: TransferService,
    pub boards: BoardService,
}

impl Client {
    /// The request that logs in with an application key.
    pub fn login(app_token: &str) -> (r: HttpRequest)
        ensures
            r@ == login_request(app_token@),
    {
        let mut headers: Vec<(String, String)> = Vec::new();
        headers.push((String::from_str("x-api-key"), String::from_str(app_token)));
        let r = HttpRequest {
            method: Method::Post,
            url: String::from_str(LOGIN_URL),
            headers,
            body: None,
        };
        assert(r@.headers =~= login_request(app_token@).headers);
        r
    }

    /// The client of the session that `login` opened, or the login's error.
    /// Both services get the session's token and the application key.
    pub fn new(app_token: String, login: Result<Login, ClientError>) -> (r: Result<Client, ClientError>)
        ensures
            match login {
                Err(e) => r == Err::<Client, ClientError>(e),
                Ok(l) => r matches Ok(c) && {
                    &&& c.transfers.requester.jwt == l.token
                    &&& c.transfers.requester.app_token == app_token
                    &&& c.transfers.requester.base_url@ == TRANSFERS_URL@
                    &&& c.boards.requester.jwt == l.token
                    &&& c.boards.requester.app_token == app_token
                    &&& c.boards.requester.base_url@ == BOARDS_URL@
                },
            },
    {
        match login {
            Ok(l) => {
                let jwt = l.token;
                Ok(Client {
                    transfers: TransferService::new(jwt.clone(), app_token.clone()),
                    boards: BoardService::new(jwt, app_token),
                })
            },
            Err(error) => Err(error),
        }
    }
}

} // verus!
