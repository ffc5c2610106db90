//! The endpoint registry: each logical operation of the provider's API
//! maps to one fixed URL path suffix.

use vstd::prelude::*;

verus! {

/// A logical operation of the provider's API.  The set is closed: every
/// tag maps to exactly one path suffix.
#[derive(Clone, Copy, PartialEq, Eq, Structural)]
pub enum SendGridEndpoint {
    MailSend,
    Templates,
}

impl SendGridEndpoint {
    /// The URL path suffix of this operation.
    pub open spec fn spec_path(self) -> Seq<char> {
        match self {
            SendGridEndpoint::MailSend => "/mail/send"@,
            SendGridEndpoint::Templates => "/templates"@,
        }
    }

    /// Returns the URL path suffix of this operation.
    pub fn path(self) -> (r: &'static str)
        ensures
            r@ == self.spec_path(),
    {
        match self {
            SendGridEndpoint::MailSend => "/mail/send",
            SendGridEndpoint::Templates => "/templates",
        }
    }
}

impl From<SendGridEndpoint> for String {
    /// Returns the path suffix of the operation as an owned string.
    fn from(item: SendGridEndpoint) -> (r: String)
        ensures
            r@ == item.spec_path(),
    {
        String::from_str(item.path())
    }
}

impl vstd::std_specs::convert::FromSpecImpl<SendGridEndpoint> for String {
    /// `String` is abstract in specifications, so `from_spec` cannot
    /// name the exact `String` value; the `ensures` on `from` above
    /// promises its view instead.
    open spec fn obeys_from_spec() -> bool {
        false
    }

    open spec fn from_spec(item: SendGridEndpoint) -> String {
        choose|s: String| s@ == item.spec_path()
    }
}

} // verus!
