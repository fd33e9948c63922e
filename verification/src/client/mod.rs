//! Transport-side logic: API requests and responses, error-code
//! classification and the retry policy.

pub mod api_request;
pub mod api_response;
pub mod errors;
pub mod http;
pub mod retry;
