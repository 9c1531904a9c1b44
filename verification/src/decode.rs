//! Decoding of raw event payloads: the trusted readers in `json` pull named
//! plain values out of a payload; everything that decides what those values
//! mean — the usage record, the delta classification, the error-body
//! description — is verified against exact contracts.

use crate::client::TokenUsage;
use crate::error::{ApiError, ClientError, Error};
use crate::json::{
    delta_field_of, error_message_of, finish_reason_of, json_ok, read_delta_field,
    read_error_body, read_finish_reason, read_shape, read_usage_count, read_usage_detail,
    read_usage_present, shape_of, usage_count_of, usage_detail_of, usage_present_of,
};
use crate::stream::Delta;
use vstd::prelude::*;

verus! {

/// Plain values read out of the delta object of one streamed chunk choice.
pub struct ChunkFields {
    /// Reasoning fragment, where the delta carries one.
    pub reasoning: Option<String>,
    /// Content fragment, where the delta carries one.
    pub content: Option<String>,
    /// Refusal message, where the delta carries one.
    pub refusal: Option<String>,
    /// Whether the choice carries a finish reason.
    pub has_finish_reason: bool,
}

/// The delta decided by the fields of a choice: a reasoning fragment wins,
/// then a content fragment, then a refusal (an error); a bare finish reason
/// carries nothing and is ignored; a choice with none of these is missing
/// its content.
pub open spec fn classified(f: ChunkFields) -> Result<Option<Delta>, Error> {
    match f.reasoning {
        Some(r) => Ok(Some(Delta::Reasoning(r))),
        None => match f.content {
            Some(c) => Ok(Some(Delta::Content(c))),
            None => match f.refusal {
                Some(rf) => Err(Error::Refusal(rf)),
                None => if f.has_finish_reason {
                    Ok(None)
                } else {
                    Err(Error::NoContent)
                },
            },
        },
    }
}

/// Decide the semantic delta for the fields read out of a choice.
pub fn classify_delta(f: ChunkFields) -> (r: Result<Option<Delta>, Error>)
    ensures
        r == classified(f),
{
    match f.reasoning {
        Some(reasoning) => Ok(Some(Delta::Reasoning(reasoning))),
        None => match f.content {
            Some(content) => Ok(Some(Delta::Content(content))),
            None => match f.refusal {
                Some(refusal) => Err(Error::Refusal(refusal)),
                None => if f.has_finish_reason {
                    Ok(None)
                } else {
                    Err(Error::NoContent)
                },
            },
        },
    }
}

/// The raw token counts of a usage record, as the JSON numbers carry them.
#[derive(Debug, Clone, Copy, PartialEq, Eq)]
pub struct RawUsage {
    /// The `prompt_tokens` count.
    pub prompt_tokens: u64,
    /// The `completion_tokens` count.
    pub completion_tokens: u64,
    /// The `cached_tokens` count of `prompt_tokens_details`, if a u64.
    pub cached_tokens: Option<u64>,
    /// The `reasoning_tokens` count of `completion_tokens_details`, if a u64.
    pub reasoning_tokens: Option<u64>,
}

/// An optional raw count, as a usize where it fits the machine word.
pub open spec fn fitted(o: Option<u64>) -> Option<usize> {
    match o {
        Some(n) => if n <= usize::MAX {
            Some(n as usize)
        } else {
            None
        },
        None => None,
    }
}

/// The usage record decided by the raw counts: the mandatory counts must
/// fit the machine word, else the record is rejected; a detail count that
/// does not fit is dropped.
pub open spec fn usage_of_raw(u: RawUsage) -> Option<TokenUsage> {
    if u.prompt_tokens > usize::MAX || u.completion_tokens > usize::MAX {
        None
    } else {
        Some(
            TokenUsage {
                tokens_in: u.prompt_tokens as usize,
                tokens_in_cached: fitted(u.cached_tokens),
                tokens_out: u.completion_tokens as usize,
                tokens_reasoning: fitted(u.reasoning_tokens),
            },
        )
    }
}

/// An optional raw count narrowed to the machine word.
fn fit_count(o: Option<u64>) -> (r: Option<usize>)
    ensures
        r == fitted(o),
{
    match o {
        Some(n) => if n <= usize::MAX as u64 {
            Some(n as usize)
        } else {
            None
        },
        None => None,
    }
}

/// Build the token usage record out of the raw counts of a usage object.
pub fn usage_from_raw(u: RawUsage) -> (r: Option<TokenUsage>)
    ensures
        r == usage_of_raw(u),
{
    if u.prompt_tokens > usize::MAX as u64 || u.completion_tokens > usize::MAX as u64 {
        None
    } else {
        Some(
            TokenUsage {
                tokens_in: u.prompt_tokens as usize,
                tokens_in_cached: fit_count(u.cached_tokens),
                tokens_out: u.completion_tokens as usize,
                tokens_reasoning: fit_count(u.reasoning_tokens),
            },
        )
    }
}

/// The raw usage counts a payload carries, where its mandatory counts are
/// present as u64 numbers.
pub open spec fn raw_usage_of(s: Seq<char>) -> Option<RawUsage> {
    match usage_count_of(s, "prompt_tokens"@) {
        Some(prompt_tokens) => match usage_count_of(s, "completion_tokens"@) {
            Some(completion_tokens) => Some(
                RawUsage {
                    prompt_tokens,
                    completion_tokens,
                    cached_tokens: usage_detail_of(s, "prompt_tokens_details"@, "cached_tokens"@),
                    reasoning_tokens: usage_detail_of(
                        s,
                        "completion_tokens_details"@,
                        "reasoning_tokens"@,
                    ),
                },
            ),
            None => None,
        },
        None => None,
    }
}

/// What decoding yields for a payload that parses as JSON. A chunk without
/// a proper `choices` array is malformed; a chunk without choices carries
/// either a usage record or nothing at all (an error); otherwise the fields
/// of the last choice's delta decide, as in `classified`.
pub open spec fn decode_matches(s: Seq<char>, r: Result<Option<Delta>, Error>) -> bool {
    let sh = shape_of(s);
    if !sh.choices_ok {
        r matches Err(e) && e is DeltaJsonError
    } else if sh.choices_empty {
        if usage_present_of(s) {
            match raw_usage_of(s) {
                Some(raw) => match usage_of_raw(raw) {
                    Some(tu) => r == Result::<Option<Delta>, Error>::Ok(Some(Delta::Usage(tu))),
                    None => r matches Err(e) && e is DeltaJsonError,
                },
                None => r matches Err(e) && e is DeltaJsonError,
            }
        } else {
            r == Result::<Option<Delta>, Error>::Err(Error::NoChoices)
        }
    } else if !sh.delta_ok {
        r matches Err(e) && e is DeltaJsonError
    } else {
        match delta_field_of(s, "reasoning"@) {
            Some(t) => r matches Ok(Some(Delta::Reasoning(x))) && x@ == t,
            None => match delta_field_of(s, "content"@) {
                Some(t) => r matches Ok(Some(Delta::Content(x))) && x@ == t,
                None => match delta_field_of(s, "refusal"@) {
                    Some(t) => r matches Err(Error::Refusal(x)) && x@ == t,
                    None => if finish_reason_of(s) {
                        r == Result::<Option<Delta>, Error>::Ok(None)
                    } else {
                        r == Result::<Option<Delta>, Error>::Err(Error::NoContent)
                    },
                },
            },
        }
    }
}

/// Parse one raw event payload into zero or one semantic delta. A payload
/// that is not JSON is a decode failure; for any other payload the result
/// is decided by the chunk the payload carries, as `decode_matches` states.
pub fn decode_delta(payload: &str) -> (r: Result<Option<Delta>, Error>)
    ensures
        !json_ok(payload@) ==> (r matches Err(e) && e is DeltaJsonError),
        json_ok(payload@) ==> decode_matches(payload@, r),
{
    let shape = match read_shape(payload) {
        Ok(sh) => sh,
        Err(message) => {
            return Err(Error::DeltaJsonError(message));
        },
    };
    if !shape.choices_ok {
        return Err(Error::DeltaJsonError("`choices` is missing or not an array".to_owned()));
    }
    if shape.choices_empty {
        if !read_usage_present(payload) {
            return Err(Error::NoChoices);
        }
        let prompt = read_usage_count(payload, "prompt_tokens");
        let completion = read_usage_count(payload, "completion_tokens");
        return match (prompt, completion) {
            (Some(prompt_tokens), Some(completion_tokens)) => {
                let raw = RawUsage {
                    prompt_tokens,
                    completion_tokens,
                    cached_tokens: read_usage_detail(
                        payload,
                        "prompt_tokens_details",
                        "cached_tokens",
                    ),
                    reasoning_tokens: read_usage_detail(
                        payload,
                        "completion_tokens_details",
                        "reasoning_tokens",
                    ),
                };
                match usage_from_raw(raw) {
                    Some(token_usage) => Ok(Some(Delta::Usage(token_usage))),
                    None => Err(
                        Error::DeltaJsonError("`usage` counts exceed the machine word".to_owned()),
                    ),
                }
            },
            _ => Err(Error::DeltaJsonError("invalid `usage` object".to_owned())),
        };
    }
    if !shape.delta_ok {
        return Err(Error::DeltaJsonError("`delta` is missing".to_owned()));
    }
    classify_delta(
        ChunkFields {
            reasoning: read_delta_field(payload, "reasoning"),
            content: read_delta_field(payload, "content"),
            refusal: read_delta_field(payload, "refusal"),
            has_finish_reason: read_finish_reason(payload),
        },
    )
}

/// Possible error body returned by the API on a non-success status.
#[derive(Debug, PartialEq, Eq)]
pub struct ErrorBody {
    /// The `error` JSON object.
    pub error: OpenAiError,
}

/// The `error` object of an API error body (fields other than `message`
/// omitted).
#[derive(Debug, PartialEq, Eq)]
pub struct OpenAiError {
    /// The `message` field of the `error` object.
    pub message: String,
}

/// Read the error body shape out of an API error response: exactly the
/// texts that parse as an object carrying an `error.message` string yield
/// one, and the message is that string.
pub fn parse_error_body(body: &str) -> (r: Option<ErrorBody>)
    ensures
        r matches Some(eb) ==> error_message_of(body@) == Some(eb.error.message@),
        r is None ==> error_message_of(body@) is None,
{
    match read_error_body(body) {
        Some(message) => Some(ErrorBody { error: OpenAiError { message } }),
        None => None,
    }
}

/// The API error for a non-success HTTP response: the description is the
/// `error.message` of the body where the body parses as an error object,
/// else the whole body.
pub fn api_error_from_response(status: u16, body: String) -> (r: ClientError)
    ensures
        r matches ClientError::Api(e) && e.status == status && e.description@ == (match error_message_of(
            body@,
        ) {
            Some(m) => m,
            None => body@,
        }),
{
    let description = match parse_error_body(body.as_str()) {
        Some(eb) => eb.error.message,
        None => body,
    };
    ClientError::Api(ApiError { status, description })
}

} // verus!
