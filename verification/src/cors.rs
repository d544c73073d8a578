//! The cross-origin policy of the service.
//!
//! The API is public, read-only and carries no credentials, so any origin
//! and any request header are allowed, while the allowed methods are
//! restricted to GET only.

use vstd::prelude::*;

verus! {

/// The values of the three cross-origin response headers the service sends.
pub struct CorsPolicy {
    pub allow_origin: String,
    pub allow_methods: String,
    pub allow_headers: String,
}

impl CorsPolicy {
    /// The service's one policy: every origin and every header is allowed,
    /// and GET is the only allowed method.
    pub fn permissive_read_only() -> (c: CorsPolicy)
        ensures
            c.allow_origin@ == "*"@,
            c.allow_methods@ == "GET"@,
            c.allow_headers@ == "*"@,
    {
        CorsPolicy {
            allow_origin: String::from_str("*"),
            allow_methods: String::from_str("GET"),
            allow_headers: String::from_str("*"),
        }
    }
}

} // verus!
