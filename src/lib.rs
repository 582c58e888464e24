//! A client for a file-sharing API with two kinds of resources: transfers,
//! which expire after a week, and boards, which hold files and links.
//!
//! The library builds every request that the API takes, classifies every
//! answer, and drives the chunked upload of local files as a state machine:
//! the caller performs each action that the machine hands out and reports
//! what came back.

pub mod json;
pub mod requests;
pub mod responses;
pub mod errors;
pub mod requester;
pub mod routes;
pub mod plan;
pub mod upload;
pub mod transfer;
pub mod board;
pub mod client;
