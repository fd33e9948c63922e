//! API responses: a code of 0 is success, any other code is an error
//! that carries the code and the message.

use vstd::prelude::*;
use crate::error::TigerError;

verus! {

/// A JSON value (`serde_json::Value`), carried through unread.
#[verifier::external_type_specification]
#[verifier::external_body]
pub struct ExJsonValue(serde_json::Value);

/// A response of the API.
#[derive(Debug, Clone)]
pub struct ApiResponse {
    /// Status code; 0 means success.
    pub code: i32,
    /// Status text.
    pub message: String,
    /// The business data, as JSON.
    pub data: Option<serde_json::Value>,
    /// Server time stamp.
    pub timestamp: Option<i64>,
}

/// Accepts a decoded response: code 0 gives the response back, any other
/// code gives `TigerError::Api` with that code and message.
pub fn check_api_response(resp: ApiResponse) -> (r: Result<ApiResponse, TigerError>)
    ensures
        resp.code == 0 ==> r == Ok::<ApiResponse, TigerError>(resp),
        resp.code != 0 ==> (r matches Err(TigerError::Api { code, message }) && code == resp.code
            && message@ == resp.message@),
{
    if resp.code != 0 {
        return Err(TigerError::Api { code: resp.code, message: resp.message });
    }
    Ok(resp)
}

} // verus!
