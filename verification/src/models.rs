use vstd::prelude::*;

verus! {

/// What a row of the users table holds, as mathematical values.
pub struct UserRow {
    pub id: i32,
    pub username: Seq<char>,
    pub password: Seq<char>,
}

/// A pair of credentials, as mathematical values.
pub struct Credentials {
    pub username: Seq<char>,
    pub password: Seq<char>,
}

/// A row of the users table, as the store hands it back.
pub struct User {
    pub id: i32,
    pub username: String,
    pub password: String,
}

impl View for User {
    type V = UserRow;

    open spec fn view(&self) -> UserRow {
        UserRow { id: self.id, username: self.username@, password: self.password@ }
    }
}

/// The columns of a row that is about to be inserted; the store picks the id.
pub struct NewUser<'a> {
    pub username: &'a str,
    pub password: &'a str,
}

impl<'a> View for NewUser<'a> {
    type V = Credentials;

    open spec fn view(&self) -> Credentials {
        Credentials { username: self.username@, password: self.password@ }
    }
}

/// The credentials that a sign-up carries into the service.
pub struct SignUpUserDto {
    pub username: String,
    pub password: String,
}

impl View for SignUpUserDto {
    type V = Credentials;

    open spec fn view(&self) -> Credentials {
        Credentials { username: self.username@, password: self.password@ }
    }
}

/// The body of a sign-up request.
pub struct SignUpUserRequest {
    pub username: String,
    pub password: String,
}

impl View for SignUpUserRequest {
    type V = Credentials;

    open spec fn view(&self) -> Credentials {
        Credentials { username: self.username@, password: self.password@ }
    }
}

impl From<SignUpUserRequest> for SignUpUserDto {
    fn from(sign_up_user_request: SignUpUserRequest) -> (dto: Self)
        ensures
            dto.username@ == sign_up_user_request.username@,
            dto.password@ == sign_up_user_request.password@,
    {
        SignUpUserDto {
            username: sign_up_user_request.username,
            password: sign_up_user_request.password,
        }
    }
}

impl vstd::std_specs::convert::FromSpecImpl<SignUpUserRequest> for SignUpUserDto {
    open spec fn obeys_from_spec() -> bool {
        true
    }

    open spec fn from_spec(v: SignUpUserRequest) -> Self {
        SignUpUserDto { username: v.username, password: v.password }
    }
}

/// The answer to a sign-up: the account's id and a status word.
pub struct SignUpUserResponse {
    pub id: i32,
    pub status: String,
}

impl SignUpUserResponse {
    pub fn new(id: i32, status: String) -> (response: Self)
        ensures
            response.id == id,
            response.status@ == status@,
    {
        SignUpUserResponse { id: id, status: status }
    }
}

/// The new columns that an update carries for the row with `id`.
pub struct UpdateUserDto {
    pub id: i32,
    pub username: String,
    pub password: String,
}

impl View for UpdateUserDto {
    type V = UserRow;

    open spec fn view(&self) -> UserRow {
        UserRow { id: self.id, username: self.username@, password: self.password@ }
    }
}

/// The body of an update request.
pub struct UpdateUserRequest {
    pub id: i32,
    pub username: String,
    pub password: String,
}

impl View for UpdateUserRequest {
    type V = UserRow;

    open spec fn view(&self) -> UserRow {
        UserRow { id: self.id, username: self.username@, password: self.password@ }
    }
}

impl From<UpdateUserRequest> for UpdateUserDto {
    fn from(update_user_request: UpdateUserRequest) -> (dto: Self)
        ensures
            dto.id == update_user_request.id,
            dto.username@ == update_user_request.username@,
            dto.password@ == update_user_request.password@,
    {
        UpdateUserDto {
            id: update_user_request.id,
            username: update_user_request.username,
            password: update_user_request.password,
        }
    }
}

impl vstd::std_specs::convert::FromSpecImpl<UpdateUserRequest> for UpdateUserDto {
    open spec fn obeys_from_spec() -> bool {
        true
    }

    open spec fn from_spec(v: UpdateUserRequest) -> Self {
        UpdateUserDto { id: v.id, username: v.username, password: v.password }
    }
}

/// A user as the service hands it out.
pub struct UserDto {
    pub id: i32,
    pub username: String,
    pub password: String,
}

impl View for UserDto {
    type V = UserRow;

    open spec fn view(&self) -> UserRow {
        UserRow { id: self.id, username: self.username@, password: self.password@ }
    }
}

impl<'a> From<&'a User> for UserDto {
    fn from(user: &'a User) -> (dto: Self)
        ensures
            dto.id == user.id,
            dto.username@ == user.username@,
            dto.password@ == user.password@,
    {
        UserDto { id: user.id, username: user.username.clone(), password: user.password.clone() }
    }
}

impl<'a> vstd::std_specs::convert::FromSpecImpl<&'a User> for UserDto {
    open spec fn obeys_from_spec() -> bool {
        true
    }

    open spec fn from_spec(v: &'a User) -> Self {
        UserDto { id: v.id, username: v.username, password: v.password }
    }
}

/// The service could not give the answer that was asked of it.
#[derive(Debug, Clone, Copy, PartialEq, Eq, Structural)]
pub struct AuthServiceError;

impl AuthServiceError {
    /// The text that describes the error.
    pub fn message(&self) -> (text: String)
        ensures
            text@ == "Some error here"@,
    {
        String::from_str("Some error here")
    }
}

/// Turning a sign-up request into the service's record keeps its
/// credentials unchanged: the same username and the same password.
pub proof fn lemma_sign_up_dto_keeps_credentials(request: SignUpUserRequest)
    ensures
        <SignUpUserDto as vstd::std_specs::convert::FromSpec<SignUpUserRequest>>::obeys_from_spec(),
        <SignUpUserDto as vstd::std_specs::convert::FromSpec<SignUpUserRequest>>::from_spec(request).username@
            == request.username@,
        <SignUpUserDto as vstd::std_specs::convert::FromSpec<SignUpUserRequest>>::from_spec(request).password@
            == request.password@,
        <SignUpUserDto as vstd::std_specs::convert::FromSpec<SignUpUserRequest>>::from_spec(request)@
            == request@,
{
}

/// Turning an update request into the service's record keeps its id and
/// its new columns unchanged.
pub proof fn lemma_update_dto_keeps_columns(request: UpdateUserRequest)
    ensures
        <UpdateUserDto as vstd::std_specs::convert::FromSpec<UpdateUserRequest>>::obeys_from_spec(),
        <UpdateUserDto as vstd::std_specs::convert::FromSpec<UpdateUserRequest>>::from_spec(request).id
            == request.id,
        <UpdateUserDto as vstd::std_specs::convert::FromSpec<UpdateUserRequest>>::from_spec(request).username@
            == request.username@,
        <UpdateUserDto as vstd::std_specs::convert::FromSpec<UpdateUserRequest>>::from_spec(request).password@
            == request.password@,
        <UpdateUserDto as vstd::std_specs::convert::FromSpec<UpdateUserRequest>>::from_spec(request)@
            == request@,
{
}

/// Handing out a user keeps its id, username and password unchanged.
pub proof fn lemma_user_dto_keeps_row<'a>(user: &'a User)
    ensures
        <UserDto as vstd::std_specs::convert::FromSpec<&'a User>>::obeys_from_spec(),
        <UserDto as vstd::std_specs::convert::FromSpec<&'a User>>::from_spec(user)@ == user@,
{
}

} // verus!
