use auth_service::handlers::signup::SignUp;
use auth_service::handlers::update::Update;
use auth_service::models::{AuthServiceError, SignUpUserDto, UpdateUserDto, User};
use auth_service::services::user::{
    conclude_get_user, conclude_sign_up, conclude_update, plan_sign_up, plan_update, SignUpStep,
};

/// A users table held in memory: rows in insertion order, ids from a serial.
struct Table {
    rows: Vec<User>,
    next_id: i32,
}

impl Table {
    fn new() -> Table {
        Table { rows: Vec::new(), next_id: 1 }
    }

    fn named(&self, name: &str) -> Vec<User> {
        self.rows
            .iter()
            .filter(|u| u.username == name)
            .map(|u| User { id: u.id, username: u.username.clone(), password: u.password.clone() })
            .collect()
    }

    fn with_id(&self, id: i32) -> Vec<User> {
        self.rows
            .iter()
            .filter(|u| u.id == id)
            .map(|u| User { id: u.id, username: u.username.clone(), password: u.password.clone() })
            .collect()
    }

    fn sign_up(&mut self, username: &str, password: &str) -> Result<i32, AuthServiceError> {
        let dto = SignUpUserDto { username: username.to_string(), password: password.to_string() };
        let found = self.named(&dto.username);
        let step = plan_sign_up(&dto, &found);
        let inserted = match &step {
            SignUpStep::Create(columns) => {
                let row = User {
                    id: self.next_id,
                    username: columns.username.to_string(),
                    password: columns.password.to_string(),
                };
                self.next_id += 1;
                self.rows.push(User { id: row.id, username: row.username.clone(), password: row.password.clone() });
                Some(row)
            }
            _ => None,
        };
        conclude_sign_up(&step, inserted.as_ref())
    }

    fn update(&mut self, dto: &UpdateUserDto) -> Result<bool, AuthServiceError> {
        let plan = plan_update(dto);
        let mut updated = None;
        for row in self.rows.iter_mut() {
            if row.id == plan.id {
                row.username = plan.columns.username.to_string();
                row.password = plan.columns.password.to_string();
                updated = Some(user(row.id, &row.username, &row.password));
            }
        }
        conclude_update(&updated.expect("Could not update user"))
    }
}

fn user(id: i32, username: &str, password: &str) -> User {
    User { id, username: username.to_string(), password: password.to_string() }
}

#[test]
fn plan_sign_up_without_rows_creates() {
    let dto = SignUpUserDto { username: "some_user".to_string(), password: "pw".to_string() };
    match plan_sign_up(&dto, &Vec::new()) {
        SignUpStep::Create(columns) => {
            assert_eq!(columns.username, "some_user");
            assert_eq!(columns.password, "pw");
        }
        _ => panic!("expected an insert"),
    }
}

#[test]
fn plan_sign_up_with_one_row_reuses() {
    let dto = SignUpUserDto { username: "some_user".to_string(), password: "pw".to_string() };
    let step = plan_sign_up(&dto, &vec![user(9, "some_user", "old")]);
    assert!(matches!(step, SignUpStep::Existing(9)));
    assert_eq!(conclude_sign_up(&step, None), Ok(9));
}

#[test]
fn plan_sign_up_with_two_rows_fails() {
    let dto = SignUpUserDto { username: "some_user".to_string(), password: "pw".to_string() };
    let step = plan_sign_up(&dto, &vec![user(1, "some_user", "a"), user(2, "some_user", "b")]);
    assert!(matches!(step, SignUpStep::Conflict));
    assert_eq!(conclude_sign_up(&step, None), Err(AuthServiceError));
}

#[test]
fn conclude_sign_up_answers_the_inserted_id() {
    let dto = SignUpUserDto { username: "x".to_string(), password: "y".to_string() };
    let step = plan_sign_up(&dto, &Vec::new());
    assert_eq!(conclude_sign_up(&step, Some(&user(17, "x", "y"))), Ok(17));
}

#[test]
fn conclude_get_user_takes_the_first_row() {
    let found = vec![user(4, "a", "b"), user(4, "c", "d")];
    let dto = conclude_get_user(&found).unwrap();
    assert_eq!(dto.id, 4);
    assert_eq!(dto.username, "a");
    assert_eq!(dto.password, "b");
    assert_eq!(conclude_get_user(&Vec::new()).err(), Some(AuthServiceError));
}

#[test]
fn plan_update_writes_the_new_columns() {
    let dto = UpdateUserDto { id: 5, username: "n".to_string(), password: "p".to_string() };
    let plan = plan_update(&dto);
    assert_eq!(plan.id, 5);
    assert_eq!(plan.columns.username, "n");
    assert_eq!(plan.columns.password, "p");
}

#[test]
fn first_sign_up_on_empty_table_gets_id_one() {
    let mut table = Table::new();
    let response = SignUp::sign_up_response(table.sign_up("some_user", "plain_text_password"));
    assert_eq!(response.status, "success");
    assert_eq!(1, response.id);
}

#[test]
fn sign_up_twice_gives_same_id() {
    let mut table = Table::new();
    let first = table.sign_up("some_user", "plain_text_password");
    let second = table.sign_up("some_user", "another_password");
    assert_eq!(first, Ok(1));
    assert_eq!(second, Ok(1));
    assert_eq!(table.rows.len(), 1);
    assert_eq!(table.rows[0].password, "plain_text_password");
}

#[test]
fn get_after_sign_up_finds_the_user() {
    let mut table = Table::new();
    table.sign_up("other", "x").unwrap();
    let id = table.sign_up("some_user", "plain_text_password").unwrap();
    let dto = conclude_get_user(&table.with_id(id)).unwrap();
    assert_eq!(dto.id, 2);
    assert_eq!(dto.username, "some_user");
    assert_eq!(dto.password, "plain_text_password");
}

#[test]
fn get_of_unknown_id_fails() {
    let mut table = Table::new();
    table.sign_up("some_user", "plain_text_password").unwrap();
    assert!(conclude_get_user(&table.with_id(2)).is_err());
}

#[test]
fn update_after_sign_up_changes_username() {
    let mut table = Table::new();
    table.sign_up("some_user", "plain_text_password").unwrap();
    table.sign_up("bystander", "pw").unwrap();
    let mut dto = conclude_get_user(&table.with_id(1)).unwrap();
    dto.username = "some_other_username".to_string();
    let result = table.update(&UpdateUserDto { id: dto.id, username: dto.username, password: dto.password });
    assert_eq!(Update::update_status(&result), 200);
    let after = conclude_get_user(&table.with_id(1)).unwrap();
    assert_eq!(after.username, "some_other_username");
    assert_eq!(after.password, "plain_text_password");
    let other = conclude_get_user(&table.with_id(2)).unwrap();
    assert_eq!(other.username, "bystander");
}

#[test]
fn conclude_update_answers_success() {
    assert_eq!(conclude_update(&user(1, "a", "b")), Ok(true));
}

#[test]
fn repeating_an_update_changes_nothing_more() {
    let mut table = Table::new();
    table.sign_up("some_user", "plain_text_password").unwrap();
    let dto = UpdateUserDto { id: 1, username: "renamed".to_string(), password: "pw".to_string() };
    assert_eq!(table.update(&dto), Ok(true));
    assert_eq!(table.update(&dto), Ok(true));
    assert_eq!(table.rows.len(), 1);
    assert_eq!(table.rows[0].username, "renamed");
    assert_eq!(table.rows[0].password, "pw");
}

#[test]
fn update_to_a_taken_username_still_succeeds() {
    let mut table = Table::new();
    table.sign_up("first", "a").unwrap();
    table.sign_up("second", "b").unwrap();
    let dto = UpdateUserDto { id: 2, username: "first".to_string(), password: "b".to_string() };
    assert_eq!(table.update(&dto), Ok(true));
    assert_eq!(table.named("first").len(), 2);
}

