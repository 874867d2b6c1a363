//! A plain sign-up endpoint that greets the user it was posted.
use vstd::prelude::*;

verus! {

/// Where the plain sign-up is posted.
pub const SIGN_UP_URL: &'static str = "/auth/signup";

/// The plain sign-up endpoint.
pub struct SignUp {}

/// The body of a plain sign-up.
pub struct User {
    pub username: String,
}

impl SignUp {
    /// The text that the plain sign-up answers for `user`.
    pub fn sign_up_message(user: &User) -> (message: String)
        ensures
            message@ == user.username@ + " singed up successfully!"@,
    {
        let mut message = user.username.clone();
        message.append(" singed up successfully!");
        message
    }
}

} // verus!
