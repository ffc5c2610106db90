//! Configuration: the API base host that the client composes its
//! request URLs against.

use vstd::prelude::*;

verus! {

/// The base URL of the production API, scheme and version segment
/// included.
pub open spec fn production_host() -> Seq<char> {
    "https://api.sendgrid.com/v3/"@
}

/// Holds the API base host.  No validation is performed here: a
/// malformed override surfaces later, as a transport failure.
#[derive(Clone, Debug)]
pub struct SendGridConfig {
    pub rest_api_host: String,
}

impl SendGridConfig {
    /// A configuration for exercising the client against the production
    /// API base.
    pub fn test_env() -> (r: Self)
        ensures
            r.rest_api_host@ == production_host(),
    {
        SendGridConfig { rest_api_host: String::from_str("https://api.sendgrid.com/v3/") }
    }
}

impl Default for SendGridConfig {
    /// The default configuration points at the production API base.
    fn default() -> (r: Self)
        ensures
            r.rest_api_host@ == production_host(),
    {
        SendGridConfig { rest_api_host: String::from_str("https://api.sendgrid.com/v3/") }
    }
}

} // verus!
