//! API request construction: a method name and its business parameters
//! as a JSON text.

use vstd::prelude::*;
use crate::text::owned;

verus! {

/// A request to one API method.
#[derive(Debug, Clone)]
pub struct ApiRequest {
    /// The method's name (such as `market_state` or `place_order`).
    pub method: String,
    /// The business parameters, as a JSON text.
    pub biz_content: String,
    /// The API version to use for this request only, if any.
    pub version: Option<String>,
}

impl ApiRequest {
    /// A request of `method` with `biz_content`, at the default version.
    pub fn new(method: &str, biz_content: &str) -> (r: Self)
        ensures
            r.method@ == method@,
            r.biz_content@ == biz_content@,
            r.version is None,
    {
        ApiRequest { method: owned(method), biz_content: owned(biz_content), version: None }
    }

    /// A request of `method` with `biz_content`, at API version `version`.
    pub fn with_version(method: &str, biz_content: &str, version: &str) -> (r: Self)
        ensures
            r.method@ == method@,
            r.biz_content@ == biz_content@,
            r.version matches Some(v) && v@ == version@,
    {
        ApiRequest {
            method: owned(method),
            biz_content: owned(biz_content),
            version: Some(owned(version)),
        }
    }
}

} // verus!
