use auth_service::handlers::getbyid::{GetById, GET_BY_ID_URL};
use auth_service::handlers::greeting;
use auth_service::handlers::signup::{SignUp, SIGN_UP_URL};
use auth_service::handlers::update::{Update, UPDATE_URL};
use auth_service::models::AuthServiceError;

#[test]
fn sign_up_success_response() {
    let response = SignUp::sign_up_response(Ok(1));
    assert_eq!(response.id, 1);
    assert_eq!(response.status, "success");
}

#[test]
fn sign_up_failure_response() {
    let response = SignUp::sign_up_response(Err(AuthServiceError));
    assert_eq!(response.id, -1);
    assert_eq!(response.status, "failed");
}

#[test]
fn update_statuses() {
    assert_eq!(Update::update_status(&Ok(true)), 200);
    assert_eq!(Update::update_status(&Err(AuthServiceError)), 500);
}

#[test]
fn routes() {
    assert_eq!(SIGN_UP_URL, "/auth/users");
    assert_eq!(UPDATE_URL, "/auth/users");
    assert_eq!(GET_BY_ID_URL, "/auth/users");
    assert_eq!(GetById::route(), "/auth/users/{id}");
    assert_eq!(greeting::SIGN_UP_URL, "/auth/signup");
}

#[test]
fn plain_sign_up_greets_the_user() {
    let user = greeting::User { username: "some_user".to_string() };
    assert_eq!(greeting::SignUp::sign_up_message(&user), "some_user singed up successfully!");
}
