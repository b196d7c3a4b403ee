use vstd::prelude::*;

use crate::error::{Error, ErrorModel, LemmyError, LemmyResult};

verus! {

/// The error of the remote interface that a response body names, where the
/// body is a JSON document that names one.
pub uninterp spec fn remote_error(raw: Seq<char>) -> Option<lemmy_api_common::LemmyErrorType>;

/// The text that a response body holds, where the body is one JSON string.
pub uninterp spec fn json_string(raw: Seq<char>) -> Option<Seq<char>>;

/// `serde_json::from_str` at the error type of the remote interface: the
/// error that the document names, if it names one. What comes back depends
/// on the text alone.
#[verifier::external_body]
fn decode_error(raw: &str) -> (reported: Option<lemmy_api_common::LemmyErrorType>)
    ensures
        reported == remote_error(raw@),
{
    serde_json::from_str::<lemmy_api_common::LemmyErrorType>(raw).ok()
}

/// `serde_json::from_str` at `String`: the text of the document, if the
/// document is one JSON string. What comes back depends on the text alone.
#[verifier::external_body]
fn decode_string(raw: &str) -> (text: Option<String>)
    ensures
        text.deep_view() == json_string(raw@),
{
    serde_json::from_str::<String>(raw).ok()
}

/// The types that a call can answer with: those that can be read from the
/// body of a response.
pub trait LemmyResponse: Sized {
    /// Reads a value from the body of a response, if the body holds one.
    fn from_json(raw: &str) -> Option<Self>;
}

/// A response that is a text: the body is one JSON string.
impl LemmyResponse for String {
    fn from_json(raw: &str) -> (value: Option<String>)
        ensures
            value.deep_view() == json_string(raw@),
    {
        decode_string(raw)
    }
}

/// The error of a call whose response body was not of the expected type:
/// the error that the remote reported, where the body names one, and
/// otherwise an unknown error that carries the body word for word.
pub open spec fn error_of_body(
    reported: Option<lemmy_api_common::LemmyErrorType>,
    raw: Seq<char>,
) -> ErrorModel {
    match reported {
        Some(named) => ErrorModel::Api(named),
        None => ErrorModel::Unknown(raw),
    }
}

/// The error of a call whose response body `raw` was not of the expected
/// type, given what reading the body as an error of the remote gave.
pub fn fallback_error(reported: Option<lemmy_api_common::LemmyErrorType>, raw: &str) -> (error:
    LemmyError)
    ensures
        error@ == error_of_body(reported, raw@),
{
    match reported {
        Some(named) => LemmyError::Api(named),
        None => LemmyError::Unknown(Error::new(raw.to_owned())),
    }
}

/// What a call gives, once reading the response body `raw` as the expected
/// type has given `decoded`: that value where there is one; otherwise the
/// error that the body names, if it names one, or else an unknown error that
/// carries the body word for word.
pub open spec fn outcome_of_body<Response>(
    decoded: Option<Response>,
    raw: Seq<char>,
    outcome: LemmyResult<Response>,
) -> bool {
    match decoded {
        Some(value) => outcome == Ok::<Response, LemmyError>(value),
        None => outcome is Err && outcome->Err_0@ == error_of_body(remote_error(raw), raw),
    }
}

/// The outcome of a call, given what reading the response body `raw` as the
/// expected type gave. The body is read as an error only where it was not
/// of the expected type.
pub fn response_or_error<Response>(decoded: Option<Response>, raw: &str) -> (outcome: LemmyResult<
    Response,
>)
    ensures
        outcome_of_body(decoded, raw@, outcome),
{
    match decoded {
        Some(value) => Ok(value),
        None => Err(fallback_error(decode_error(raw), raw)),
    }
}

/// Reads the body of a response: as the expected type first; if that fails,
/// as an error of the remote; if that fails too, the outcome is an unknown
/// error that carries the body word for word.
pub fn deserialize_response<Response: LemmyResponse>(res: &str) -> (outcome: LemmyResult<Response>)
    ensures
        exists|decoded: Option<Response>| #[trigger]
            call_ensures(Response::from_json, (res,), decoded) && outcome_of_body(
                decoded,
                res@,
                outcome,
            ),
{
    response_or_error(Response::from_json(res), res)
}

} // verus!
