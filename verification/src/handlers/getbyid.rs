//! The lookup endpoint and its route.
use vstd::prelude::*;

verus! {

/// The prefix of the lookup route; the id follows it as a path segment.
pub const GET_BY_ID_URL: &'static str = "/auth/users";

/// The lookup endpoint.
pub struct GetById {}

impl GetById {
    /// The route pattern of the lookup: the prefix, then the segment `{id}`.
    pub fn route() -> (pattern: String)
        ensures
            pattern@ == GET_BY_ID_URL@ + "/{id}"@,
    {
        let mut pattern = String::from_str(GET_BY_ID_URL);
        pattern.append("/{id}");
        pattern
    }
}

} // verus!
