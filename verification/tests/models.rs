use auth_service::models::{
    AuthServiceError, SignUpUserDto, SignUpUserRequest, SignUpUserResponse, UpdateUserDto,
    UpdateUserRequest, User, UserDto,
};

#[test]
fn sign_up_request_becomes_dto() {
    let request = SignUpUserRequest {
        username: "some_user".to_string(),
        password: "plain_text_password".to_string(),
    };
    let dto = SignUpUserDto::from(request);
    assert_eq!(dto.username, "some_user");
    assert_eq!(dto.password, "plain_text_password");
}

#[test]
fn update_request_becomes_dto() {
    let request = UpdateUserRequest {
        id: 7,
        username: "some_other_username".to_string(),
        password: "plain_text_password".to_string(),
    };
    let dto = UpdateUserDto::from(request);
    assert_eq!(dto.id, 7);
    assert_eq!(dto.username, "some_other_username");
    assert_eq!(dto.password, "plain_text_password");
}

#[test]
fn user_becomes_dto() {
    let user = User { id: 3, username: "ann".to_string(), password: "secret".to_string() };
    let dto = UserDto::from(&user);
    assert_eq!(dto.id, 3);
    assert_eq!(dto.username, "ann");
    assert_eq!(dto.password, "secret");
    assert_eq!(user.username, "ann");
}

#[test]
fn response_holds_its_fields() {
    let response = SignUpUserResponse::new(42, "success".to_owned());
    assert_eq!(response.id, 42);
    assert_eq!(response.status, "success");
}

#[test]
fn error_message_text() {
    assert_eq!(AuthServiceError.message(), "Some error here");
}
