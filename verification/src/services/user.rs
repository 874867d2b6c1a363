//! The account service's decisions. The service talks to the users table;
//! each of its operations reads or writes the table and decides on what came
//! back. The reads and writes stay with the caller, who runs them in the
//! order that the functions here ask for and hands the rows back.
use vstd::prelude::*;

use crate::models::{
    AuthServiceError, Credentials, NewUser, SignUpUserDto, UpdateUserDto, User, UserDto, UserRow,
};

verus! {

/// The rows of `users` as mathematical values, in the same order.
pub open spec fn rows_of(users: Seq<User>) -> Seq<UserRow> {
    users.map_values(|u: User| u@)
}

/// What a sign-up does once it knows the rows that hold its username.
pub enum SignUpPlan {
    /// No row holds the username: insert one with these columns.
    Create(Credentials),
    /// Exactly one row holds it: answer with that row's id.
    Reuse(i32),
    /// Several rows hold it: the sign-up fails.
    Reject,
}

/// The plan of a sign-up of `dto`, `found` being the rows that hold its username.
pub open spec fn sign_up_plan(dto: Credentials, found: Seq<UserRow>) -> SignUpPlan {
    if found.len() == 0 {
        SignUpPlan::Create(dto)
    } else if found.len() == 1 {
        SignUpPlan::Reuse(found[0].id)
    } else {
        SignUpPlan::Reject
    }
}

/// The answer of a sign-up that followed `plan`; `inserted` is the row that
/// the table handed back for an insert, if there was one.
pub open spec fn sign_up_reply(plan: SignUpPlan, inserted: Option<UserRow>) -> Result<i32, AuthServiceError> {
    match plan {
        SignUpPlan::Create(_) => Ok(inserted.unwrap().id),
        SignUpPlan::Reuse(id) => Ok(id),
        SignUpPlan::Reject => Err(AuthServiceError),
    }
}

/// The next step of a sign-up, for the caller to carry out.
pub enum SignUpStep<'a> {
    /// Insert a row with these columns, then conclude with the row that came back.
    Create(NewUser<'a>),
    /// Conclude at once: the account exists under this id.
    Existing(i32),
    /// Conclude at once: the username is ambiguous.
    Conflict,
}

impl<'a> View for SignUpStep<'a> {
    type V = SignUpPlan;

    open spec fn view(&self) -> SignUpPlan {
        match self {
            SignUpStep::Create(new_user) => SignUpPlan::Create(new_user@),
            SignUpStep::Existing(id) => SignUpPlan::Reuse(*id),
            SignUpStep::Conflict => SignUpPlan::Reject,
        }
    }
}

/// Decides a sign-up of `user_dto`, given the rows whose username is the
/// one it signs up with.
pub fn plan_sign_up<'a>(user_dto: &'a SignUpUserDto, users: &Vec<User>) -> (step: SignUpStep<'a>)
    ensures
        step@ == sign_up_plan(user_dto@, rows_of(users@)),
{
    if users.len() == 0 {
        SignUpStep::Create(
            NewUser { username: user_dto.username.as_str(), password: user_dto.password.as_str() },
        )
    } else if users.len() == 1 {
        let user: &User = &users[0];
        SignUpStep::Existing(user.id)
    } else {
        SignUpStep::Conflict
    }
}

/// The row that `inserted` holds, if any, as a mathematical value.
pub open spec fn row_of_option(inserted: Option<&User>) -> Option<UserRow> {
    match inserted {
        Some(user) => Some(user@),
        None => None,
    }
}

/// The answer of a sign-up that took `step`; `inserted` is the row that the
/// table handed back when the step was an insert.
pub fn conclude_sign_up(step: &SignUpStep, inserted: Option<&User>) -> (result: Result<i32, AuthServiceError>)
    requires
        step is Create ==> inserted is Some,
    ensures
        result == sign_up_reply(step@, row_of_option(inserted)),
{
    match step {
        SignUpStep::Create(_) => {
            let user = inserted.unwrap();
            Ok(user.id)
        },
        SignUpStep::Existing(id) => Ok(*id),
        SignUpStep::Conflict => Err(AuthServiceError),
    }
}

/// The answer of a lookup by id, `found` being the rows that hold the id.
pub open spec fn get_user_reply(found: Seq<UserRow>) -> Result<UserRow, AuthServiceError> {
    if found.len() > 0 {
        Ok(found[0])
    } else {
        Err(AuthServiceError)
    }
}

/// A lookup's answer, the user taken by its view.
pub open spec fn user_result_view(result: Result<UserDto, AuthServiceError>) -> Result<UserRow, AuthServiceError> {
    match result {
        Ok(user_dto) => Ok(user_dto@),
        Err(e) => Err(e),
    }
}

/// The answer of a lookup by id, given the rows that hold the id.
pub fn conclude_get_user(users: &Vec<User>) -> (result: Result<UserDto, AuthServiceError>)
    ensures
        user_result_view(result) == get_user_reply(rows_of(users@)),
{
    if users.len() > 0 {
        Ok(UserDto::from(&users[0]))
    } else {
        Err(AuthServiceError)
    }
}

/// The columns that an update of `dto` writes.
pub open spec fn update_columns(dto: UserRow) -> Credentials {
    Credentials { username: dto.username, password: dto.password }
}

/// What an update writes: the new columns of the row with `id`.
pub struct UpdatePlan<'a> {
    pub id: i32,
    pub columns: NewUser<'a>,
}

/// The write that an update of `user_dto` asks of the table.
pub fn plan_update<'a>(user_dto: &'a UpdateUserDto) -> (plan: UpdatePlan<'a>)
    ensures
        plan.id == user_dto.id,
        plan.columns@ == update_columns(user_dto@),
{
    UpdatePlan {
        id: user_dto.id,
        columns: NewUser { username: user_dto.username.as_str(), password: user_dto.password.as_str() },
    }
}

/// The answer of an update once the table has handed back the rewritten row.
pub open spec fn update_reply(updated: UserRow) -> Result<bool, AuthServiceError> {
    Ok(true)
}

/// The answer of an update, given the row that the table handed back
/// after rewriting it: the update succeeded.
pub fn conclude_update(updated: &User) -> (result: Result<bool, AuthServiceError>)
    ensures
        result == update_reply(updated@),
        result == Ok::<bool, AuthServiceError>(true),
{
    Ok(true)
}

} // verus!
