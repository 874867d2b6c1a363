//! The update endpoint: which status it answers for what the service returned.
use vstd::prelude::*;

use crate::models::AuthServiceError;

verus! {

/// Where update requests are put.
pub const UPDATE_URL: &'static str = "/auth/users";

/// The update endpoint.
pub struct Update {}

/// The HTTP status that answers an update whose service call returned `result`.
pub open spec fn update_status_of(result: Result<bool, AuthServiceError>) -> u16 {
    match result {
        Ok(_) => 200,
        Err(_) => 500,
    }
}

impl Update {
    /// The HTTP status of the response to an update whose service call
    /// returned `result`: 200 on success, 500 on failure.
    pub fn update_status(result: &Result<bool, AuthServiceError>) -> (status: u16)
        ensures
            status == update_status_of(*result),
            result is Ok ==> status == 200,
            result is Err ==> status == 500,
    {
        match result {
            Ok(_) => 200,
            Err(_) => 500,
        }
    }
}

} // verus!
