//! The errors of the client and of its builder.
use vstd::prelude::*;

use crate::client::BotClient;

verus! {

/// The HTTP client's error type.
#[verifier::external_type_specification]
#[verifier::external_body]
pub struct ExReqwestError(reqwest::Error);

/// The JSON encoder's error type.
#[verifier::external_type_specification]
#[verifier::external_body]
pub struct ExJsonError(serde_json::Error);

/// The form encoder's error type.
#[verifier::external_type_specification]
#[verifier::external_body]
pub struct ExUrlencodedError(serde_urlencoded::ser::Error);

/// The error of a text that cannot be an HTTP header value.
#[verifier::external_type_specification]
#[verifier::external_body]
pub struct ExInvalidHeaderValue(reqwest::header::InvalidHeaderValue);

/// Why a call to the API failed.
#[derive(Debug)]
pub enum LibotRequestError {
    /// The request could not be sent, or its response not read.
    ReqwestError(reqwest::Error),
    /// A JSON body could not be written, or a JSON response not decoded.
    JsonError(serde_json::Error),
    /// A form body or a query could not be written.
    UrlencodedError(serde_urlencoded::ser::Error),
    /// The API answered with a status outside 2xx; its body, if it could be read.
    ApiError { status: u16, body: Option<String> },
}

pub type LibotResult<T> = Result<T, LibotRequestError>;

/// Why a client could not be built.
#[derive(Debug)]
pub enum BotClientBuilderError {
    /// No token was given.
    NoToken,
    /// The token cannot stand in an HTTP header.
    InvalidToken(reqwest::header::InvalidHeaderValue),
    /// The HTTP client could not be set up.
    ClientError(reqwest::Error),
}

pub type BotClientBuilderResult = Result<BotClient, BotClientBuilderError>;

} // verus!
