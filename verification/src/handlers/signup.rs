//! The sign-up endpoint: what it answers for what the service returned.
use vstd::prelude::*;

use crate::models::{AuthServiceError, SignUpUserResponse};

verus! {

/// Where sign-up requests are posted.
pub const SIGN_UP_URL: &'static str = "/auth/users";

/// The sign-up endpoint.
pub struct SignUp {}

impl SignUp {
    /// The response to a sign-up whose service call returned `result`: the
    /// account's id with the status "success", or the id -1 with "failed".
    pub fn sign_up_response(result: Result<i32, AuthServiceError>) -> (response: SignUpUserResponse)
        ensures
            match result {
                Ok(id) => response.id == id && response.status@ == "success"@,
                Err(_) => response.id == -1 && response.status@ == "failed"@,
            },
    {
        match result {
            Ok(id) => SignUpUserResponse::new(id, "success".to_owned()),
            Err(_) => SignUpUserResponse::new(-1, "failed".to_owned()),
        }
    }
}

} // verus!
