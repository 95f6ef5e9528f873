//! What the endpoints answer, as plain values: the status and the fields of
//! the body.

use vstd::prelude::*;
use vstd::string::StringExecFns;

verus! {

/// The reason given when a request asks for a negative number of messages.
pub const LIMIT_REASON: &'static str = "limit must be > 0";

/// The reason given when the node has no identifier yet.
pub const NODE_UNSET_REASON: &'static str = "Redis has not been set up yet";

/// Where to report that the node has no identifier yet.
pub const NODE_UNSET_LINK: &'static str =
    "https://github.com/FerrisChat/Server/issues/new?assignees=tazz4843&labels=bug&template=api_bug_report.yml&title=%5B500%5D%3A+redis+not+set+up";

/// What stands before the store's own words in the reason of a store failure.
pub const STORE_FAILURE_PREFIX: &'static str = "database returned a error: ";

/// The place in a request body at which it stopped making sense.
#[derive(Clone, Copy, Debug, PartialEq, Eq, Structural)]
pub struct BadRequestLocation {
    pub line: u32,
    pub character: u32,
}

/// The body of a 400: the request is at fault and is not to be retried as it
/// is.
#[derive(Clone, Debug, PartialEq, Eq)]
pub struct BadRequest {
    pub reason: String,
    pub location: Option<BadRequestLocation>,
}

/// The body of a 500: the service is at fault, or not ready.
#[derive(Clone, Debug, PartialEq, Eq)]
pub struct InternalServerError {
    pub reason: String,
    pub is_bug: bool,
    pub link: Option<String>,
}

impl BadRequest {
    /// Whether this is the answer to a negative limit.
    pub open spec fn is_negative_limit(&self) -> bool {
        &&& self.reason@ == LIMIT_REASON@
        &&& self.location is None
    }

    /// The answer to a negative limit.
    pub fn negative_limit() -> (body: BadRequest)
        ensures
            body.is_negative_limit(),
    {
        BadRequest { reason: String::from_str(LIMIT_REASON), location: None }
    }
}

impl InternalServerError {
    /// Whether this says that the node has no identifier yet.
    pub open spec fn is_node_unset(&self) -> bool {
        &&& self.reason@ == NODE_UNSET_REASON@
        &&& self.is_bug
        &&& self.link matches Some(link) && link@ == NODE_UNSET_LINK@
    }

    /// Whether this says that the store failed with the words `diagnostic`.
    pub open spec fn is_store_failure(&self, diagnostic: Seq<char>) -> bool {
        &&& self.reason@ == STORE_FAILURE_PREFIX@ + diagnostic
        &&& self.is_bug
        &&& self.link is None
    }

    /// The answer while the node has no identifier.
    pub fn node_unset() -> (body: InternalServerError)
        ensures
            body.is_node_unset(),
    {
        InternalServerError {
            reason: String::from_str(NODE_UNSET_REASON),
            is_bug: true,
            link: Some(String::from_str(NODE_UNSET_LINK)),
        }
    }

    /// The answer to a failure of the store, which carries the store's words.
    pub fn store_failure(diagnostic: &str) -> (body: InternalServerError)
        ensures
            body.is_store_failure(diagnostic@),
    {
        InternalServerError {
            reason: String::from_str(STORE_FAILURE_PREFIX).concat(diagnostic),
            is_bug: true,
            link: None,
        }
    }
}

} // verus!
