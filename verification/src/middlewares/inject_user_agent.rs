//! Names the client software on every outgoing request.
use vstd::prelude::*;
use vstd::string::StringSliceAdditionalSpecFns;
use vstd::string::StrSliceExecFns;
use crate::common::{USER_AGENT, USER_AGENT_HEADER};
use crate::request::{copy_bytes, with_line, HeaderView, Request};

verus! {

/// The link of the chain that sets the `User-Agent` header of all outgoing
/// requests.
#[derive(Debug, Clone, PartialEq, Eq)]
pub struct InjectUserAgentMiddleware {
    user_agent: Vec<u8>,
}

impl InjectUserAgentMiddleware {
    /// The value that the link gives to the `User-Agent` header.
    pub closed spec fn user_agent(&self) -> Seq<u8> {
        self.user_agent@
    }

    /// The value that names this crate and its version.
    pub open spec fn default_user_agent() -> Seq<u8> {
        USER_AGENT.spec_bytes()
    }

    /// A link that names this crate and its version.
    pub fn new() -> (r: InjectUserAgentMiddleware)
        ensures
            r.user_agent() == Self::default_user_agent(),
    {
        InjectUserAgentMiddleware { user_agent: USER_AGENT.as_bytes_vec() }
    }

    /// Sets the `User-Agent` header of the request, whatever it held, and
    /// leaves everything else as it is.
    pub fn handle(&self, req: &mut Request)
        ensures
            final(req).headers@ == with_line(
                old(req).headers@,
                HeaderView {
                    name: USER_AGENT_HEADER.spec_bytes(),
                    value: self.user_agent(),
                    sensitive: false,
                },
            ),
            final(req).method == old(req).method,
            final(req).path == old(req).path,
            final(req).query == old(req).query,
            final(req).body == old(req).body,
    {
        let value = copy_bytes(self.user_agent.as_slice());
        req.headers.insert(USER_AGENT_HEADER, value, false);
    }
}

} // verus!
