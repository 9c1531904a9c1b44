//! Trusted boundary to serde_json: small readers that each pull one named
//! plain value out of a payload text. What serde_json returns for a given
//! text depends on the text alone, so each reader's result is tied to an
//! uninterpreted name of the text; everything that decides what those
//! values mean lives in verified code on top of them.

use vstd::prelude::*;

verus! {

/// Whether a text parses as one JSON document; what serde_json::from_str
/// returns depends on the text alone.
pub uninterp spec fn json_ok(s: Seq<char>) -> bool;

/// The shape of the `choices` array of a streamed chunk.
#[derive(Debug, Clone, Copy, PartialEq, Eq)]
pub struct RawShape {
    /// The chunk carries a `choices` array.
    pub choices_ok: bool,
    /// ... and that array is empty.
    pub choices_empty: bool,
    /// The last choice carries a `delta` object (true when there is none).
    pub delta_ok: bool,
}

/// The `choices` shape of a text that parses as a chunk; deterministic in
/// the text.
pub uninterp spec fn shape_of(s: Seq<char>) -> RawShape;

/// The named string field of the last choice's `delta` object of a text,
/// where present; deterministic in the text.
pub uninterp spec fn delta_field_of(s: Seq<char>, field: Seq<char>) -> Option<Seq<char>>;

/// Whether the last choice of a text carries a non-null `finish_reason`;
/// deterministic in the text.
pub uninterp spec fn finish_reason_of(s: Seq<char>) -> bool;

/// Whether a text carries a non-null `usage` object; deterministic in the
/// text.
pub uninterp spec fn usage_present_of(s: Seq<char>) -> bool;

/// The named u64 count of the `usage` object of a text, where present;
/// deterministic in the text.
pub uninterp spec fn usage_count_of(s: Seq<char>, field: Seq<char>) -> Option<u64>;

/// The named u64 count of the named detail object of the `usage` object of
/// a text, where present; deterministic in the text.
pub uninterp spec fn usage_detail_of(s: Seq<char>, details: Seq<char>, field: Seq<char>) -> Option<
    u64,
>;

/// The `error.message` string of a text, where the text parses as an API
/// error body carrying one; deterministic in the text.
pub uninterp spec fn error_message_of(s: Seq<char>) -> Option<Seq<char>>;

/// Relies on serde_json::from_str::<serde_json::Value>, Value::get and
/// Value::as_array: the shape of the `choices` array of the payload. A text
/// that is not JSON comes back as the message of serde_json's error.
#[verifier::external_body]
pub(crate) fn read_shape(payload: &str) -> (r: Result<RawShape, String>)
    ensures
        r is Ok <==> json_ok(payload@),
        r matches Ok(sh) ==> sh == shape_of(payload@),
{
    let v: serde_json::Value = match serde_json::from_str(payload) {
        Ok(v) => v,
        Err(e) => return Err(format!("{e}")),
    };
    let choices = v.get("choices").and_then(|c| c.as_array());
    let last = choices.and_then(|arr| arr.last());
    Ok(RawShape {
        choices_ok: choices.is_some(),
        choices_empty: choices.is_some_and(|arr| arr.is_empty()),
        delta_ok: last.is_none() || last.is_some_and(|c| c.get("delta").is_some()),
    })
}

/// Relies on serde_json::from_str::<serde_json::Value>, Value::get and
/// Value::as_str: the named string field of the last choice's delta.
#[verifier::external_body]
pub(crate) fn read_delta_field(payload: &str, field: &str) -> (r: Option<String>)
    ensures
        r matches Some(m) ==> delta_field_of(payload@, field@) == Some(m@),
        r is None ==> delta_field_of(payload@, field@) is None,
{
    let v: serde_json::Value = serde_json::from_str(payload).ok()?;
    let s = v.get("choices")?.as_array()?.last()?.get("delta")?.get(field)?.as_str()?;
    Some(s.to_owned())
}

/// Relies on serde_json::from_str::<serde_json::Value>, Value::get and
/// Value::is_null: whether the last choice carries a non-null finish reason.
#[verifier::external_body]
pub(crate) fn read_finish_reason(payload: &str) -> (r: bool)
    ensures
        r == finish_reason_of(payload@),
{
    match serde_json::from_str::<serde_json::Value>(payload) {
        Ok(v) => v
            .get("choices")
            .and_then(|c| c.as_array())
            .and_then(|arr| arr.last())
            .and_then(|c| c.get("finish_reason"))
            .map(|f| !f.is_null())
            .unwrap_or(false),
        Err(_) => false,
    }
}

/// Relies on serde_json::from_str::<serde_json::Value>, Value::get and
/// Value::is_null: whether the payload carries a non-null `usage` object.
#[verifier::external_body]
pub(crate) fn read_usage_present(payload: &str) -> (r: bool)
    ensures
        r == usage_present_of(payload@),
{
    match serde_json::from_str::<serde_json::Value>(payload) {
        Ok(v) => v.get("usage").map(|u| !u.is_null()).unwrap_or(false),
        Err(_) => false,
    }
}

/// Relies on serde_json::from_str::<serde_json::Value>, Value::get and
/// Value::as_u64: the named count of the `usage` object.
#[verifier::external_body]
pub(crate) fn read_usage_count(payload: &str, field: &str) -> (r: Option<u64>)
    ensures
        r == usage_count_of(payload@, field@),
{
    let v: serde_json::Value = serde_json::from_str(payload).ok()?;
    v.get("usage")?.get(field)?.as_u64()
}

/// Relies on serde_json::from_str::<serde_json::Value>, Value::get and
/// Value::as_u64: the named count of the named detail object of `usage`.
#[verifier::external_body]
pub(crate) fn read_usage_detail(payload: &str, details: &str, field: &str) -> (r: Option<u64>)
    ensures
        r == usage_detail_of(payload@, details@, field@),
{
    let v: serde_json::Value = serde_json::from_str(payload).ok()?;
    v.get("usage")?.get(details)?.get(field)?.as_u64()
}

/// Relies on serde_json::from_str::<serde_json::Value>, Value::get and
/// Value::as_str: the `error.message` string of an API error body, where
/// the text parses as an object carrying one.
#[verifier::external_body]
pub(crate) fn read_error_body(body: &str) -> (r: Option<String>)
    ensures
        r matches Some(m) ==> error_message_of(body@) == Some(m@),
        r is None ==> error_message_of(body@) is None,
{
    let v: serde_json::Value = serde_json::from_str(body).ok()?;
    let message = v.get("error")?.get("message")?.as_str()?;
    Some(message.to_owned())
}

} // verus!
