//! Errors during interaction with a chatbot.

use crate::message;
use vstd::prelude::*;

verus! {

/// Error in case of a non-success HTTP status.
#[derive(Debug, PartialEq, Eq)]
pub struct ApiError {
    /// HTTP status code.
    pub status: u16,
    /// Error description, extracted best-effort from the error body.
    pub description: String,
}

/// Errors generated by the REST API client.
#[derive(Debug, PartialEq, Eq)]
pub enum ClientError {
    /// Non-ASCII or non-visible characters in the API key.
    InvalidCharactersInApiKey,
    /// Web request error, as reported by the transport.
    Request(String),
    /// API (HTTP) error.
    Api(ApiError),
    /// URL parsing error.
    InvalidUrl(String),
}

/// Errors during interaction with a chatbot.
#[derive(Debug, PartialEq, Eq)]
pub enum Error {
    /// Error reported by the model API client.
    OpenAiClient(ClientError),
    /// The response contains no completion choices.
    NoChoices,
    /// Message conversion error.
    InvalidMessage(message::Error),
    /// The completion response message contains no content.
    NoContent,
    /// Model refused the request.
    Refusal(String),
    /// Tokenizer initialization error.
    TokenizerInit(String),
    /// Stream transport error.
    StreamError(String),
    /// Completion delta JSON parsing error.
    DeltaJsonError(String),
    /// A delta arrived in a state where the protocol does not allow it.
    UnexpectedStreamEvent(&'static str),
}

} // verus!
