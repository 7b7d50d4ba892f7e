//! JSON, as far as the core reads it: the token counts that the backend
//! reports, and the records of tool calls. The parsing is `serde_json`'s.

use crate::error::{ErrorView, LlamaCoreError};
use crate::response::TokenInfo;
use vstd::prelude::*;

verus! {

/// `serde_json::Value`, a JSON value: the verifier sees nothing inside it.
#[verifier::external_type_specification]
#[verifier::external_body]
pub struct ExValue(serde_json::Value);

/// `serde_json::Error`, a failure to parse: the verifier sees nothing inside
/// it.
#[verifier::external_type_specification]
#[verifier::external_body]
pub struct ExJsonError(serde_json::Error);

/// The compact JSON text of a value: what a `serde_json::Value` holds.
pub uninterp spec fn json_text(value: serde_json::Value) -> Seq<char>;

/// The compact text of the JSON value that `text` denotes; `None` where `text`
/// is not JSON.
pub uninterp spec fn json_compact(text: Seq<char>) -> Option<Seq<char>>;

/// The compact text of the JSON value that `bytes` denote; `None` where
/// `bytes` are not JSON.
pub uninterp spec fn json_compact_of_bytes(bytes: Seq<u8>) -> Option<Seq<char>>;

/// The compact texts of the elements of the JSON array that `text` denotes;
/// `None` where `text` is not a JSON array.
pub uninterp spec fn json_elements(text: Seq<char>) -> Option<Seq<Seq<char>>>;

/// The compact text of the member `key` of the JSON value with the compact
/// text `compact`; `None` where the value is no object or has no such member.
pub uninterp spec fn json_member(compact: Seq<char>, key: Seq<char>) -> Option<Seq<char>>;

/// The number that the JSON value with the compact text `compact` is, where
/// it is an integer that a `u64` holds; `None` where it is not.
pub uninterp spec fn json_u64(compact: Seq<char>) -> Option<u64>;

/// Parses a JSON value from text, by `serde_json::from_str`.
///
/// Trusted: whether the call succeeds, and the value that it gives, depend on
/// the text alone.
#[verifier::external_body]
pub(crate) fn value_from_str(text: &str) -> (r: Result<serde_json::Value, serde_json::Error>)
    ensures
        match r {
            Ok(value) => json_compact(text@) == Some(json_text(value)),
            Err(_) => json_compact(text@) is None,
        },
{
    serde_json::from_str::<serde_json::Value>(text)
}

/// Parses a JSON value from bytes, by `serde_json::from_slice`.
///
/// Trusted: whether the call succeeds, and the value that it gives, depend on
/// the bytes alone.
#[verifier::external_body]
pub(crate) fn value_from_slice(bytes: &[u8]) -> (r: Result<serde_json::Value, serde_json::Error>)
    ensures
        match r {
            Ok(value) => json_compact_of_bytes(bytes@) == Some(json_text(value)),
            Err(_) => json_compact_of_bytes(bytes@) is None,
        },
{
    serde_json::from_slice::<serde_json::Value>(bytes)
}

/// Parses a JSON array from text, by `serde_json::from_str`.
///
/// Trusted: whether the call succeeds, and the elements that it gives, depend
/// on the text alone.
#[verifier::external_body]
pub(crate) fn values_from_str(text: &str) -> (r: Result<Vec<serde_json::Value>, serde_json::Error>)
    ensures
        match r {
            Ok(values) => json_elements(text@) == Some(
                values@.map_values(|v: serde_json::Value| json_text(v)),
            ),
            Err(_) => json_elements(text@) is None,
        },
{
    serde_json::from_str::<Vec<serde_json::Value>>(text)
}

/// The member `key` of a JSON value, by `serde_json::Value::get`.
///
/// Trusted: the member that the call gives, if any, depends on the value and
/// the key alone.
#[verifier::external_body]
pub(crate) fn value_get<'a>(value: &'a serde_json::Value, key: &str) -> (r: Option<
    &'a serde_json::Value,
>)
    ensures
        match r {
            Some(member) => json_member(json_text(*value), key@) == Some(json_text(*member)),
            None => json_member(json_text(*value), key@) is None,
        },
{
    value.get(key)
}

/// A JSON value as a `u64`, by `serde_json::Value::as_u64`.
///
/// Trusted: the number that the call gives, if any, depends on the value
/// alone.
#[verifier::external_body]
pub(crate) fn value_as_u64(value: &serde_json::Value) -> (r: Option<u64>)
    ensures
        r == json_u64(json_text(*value)),
{
    value.as_u64()
}

/// The compact JSON text of a value, by `serde_json::Value`'s `to_string`.
///
/// Trusted: the call gives the text that stands for the value in contracts.
#[verifier::external_body]
pub(crate) fn value_to_string(value: &serde_json::Value) -> (text: String)
    ensures
        text@ == json_text(*value),
{
    value.to_string()
}

/// The description of a failure to parse, by `serde_json::Error`'s
/// `to_string`. Nothing is stated of it.
#[verifier::external_body]
pub(crate) fn error_to_string(error: &serde_json::Error) -> String {
    error.to_string()
}

/// The counts that the JSON value with the compact text `compact` reports:
/// its members `input_tokens` and `output_tokens`.
pub open spec fn token_counts(compact: Seq<char>) -> (Option<u64>, Option<u64>) {
    (
        match json_member(compact, "input_tokens"@) {
            Some(member) => json_u64(member),
            None => None,
        },
        match json_member(compact, "output_tokens"@) {
            Some(member) => json_u64(member),
            None => None,
        },
    )
}

/// The token counts that a parsed report holds.
///
/// The counts are the members `input_tokens` and `output_tokens` of the
/// report. The first of the two that is missing, or is no integer that a
/// `u64` holds, makes the error.
pub fn token_info_from_value(report: &serde_json::Value) -> (r: Result<TokenInfo, LlamaCoreError>)
    ensures
        match token_counts(json_text(*report)) {
            (Some(prompt_tokens), Some(completion_tokens)) => r == Ok::<TokenInfo, LlamaCoreError>(
                TokenInfo { prompt_tokens, completion_tokens },
            ),
            (None, _) => r matches Err(e) && e@ == ErrorView::Operation(
                "Fail to convert `input_tokens` to u64."@,
            ),
            (Some(_), None) => r matches Err(e) && e@ == ErrorView::Operation(
                "Fail to convert `output_tokens` to u64."@,
            ),
        },
{
    let prompt_tokens = match value_get(report, "input_tokens") {
        Some(member) => value_as_u64(member),
        None => None,
    };
    let prompt_tokens = match prompt_tokens {
        Some(n) => n,
        None => {
            return Err(LlamaCoreError::operation("Fail to convert `input_tokens` to u64."));
        },
    };
    let completion_tokens = match value_get(report, "output_tokens") {
        Some(member) => value_as_u64(member),
        None => None,
    };
    let completion_tokens = match completion_tokens {
        Some(n) => n,
        None => {
            return Err(LlamaCoreError::operation("Fail to convert `output_tokens` to u64."));
        },
    };
    Ok(TokenInfo { prompt_tokens, completion_tokens })
}

/// The token counts that the backend reports in output slot 1.
///
/// `output` is what the slot held: JSON with the members `input_tokens` and
/// `output_tokens`. The call fails where the bytes are not JSON, and where one
/// of the two counts is missing or no integer that a `u64` holds.
pub fn get_token_info_by_graph(output: &[u8]) -> (r: Result<TokenInfo, LlamaCoreError>)
    ensures
        match json_compact_of_bytes(output@) {
            Some(report) => match token_counts(report) {
                (Some(prompt_tokens), Some(completion_tokens)) => r == Ok::<
                    TokenInfo,
                    LlamaCoreError,
                >(TokenInfo { prompt_tokens, completion_tokens }),
                (None, _) => r matches Err(e) && e@ == ErrorView::Operation(
                    "Fail to convert `input_tokens` to u64."@,
                ),
                (Some(_), None) => r matches Err(e) && e@ == ErrorView::Operation(
                    "Fail to convert `output_tokens` to u64."@,
                ),
            },
            None => r matches Err(LlamaCoreError::Operation(message)) && crate::text::has_prefix(
                message@,
                "Fail to deserialize token info: "@,
            ),
        },
{
    match value_from_slice(output) {
        Ok(report) => token_info_from_value(&report),
        Err(error) => {
            let detail = error_to_string(&error);
            proof {
                let prefix = "Fail to deserialize token info: "@;
                assert((prefix + detail@).subrange(0, prefix.len() as int) =~= prefix);
            }
            Err(LlamaCoreError::operation_with("Fail to deserialize token info: ", detail.as_str()))
        },
    }
}

} // verus!
