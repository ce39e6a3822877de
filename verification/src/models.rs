use vstd::prelude::*;

verus! {

/// A user as the client sees it.
#[derive(Debug, Clone, PartialEq, Eq)]
pub struct User {
    pub id: i64,
    pub username: String,
    pub created_at: String,
    pub updated_at: String,
}

/// A stored user account, with the bcrypt hash of its password.
#[derive(Debug, Clone, PartialEq, Eq)]
pub struct UserRecord {
    pub id: i64,
    pub username: String,
    pub password_hash: String,
    pub created_at: String,
    pub updated_at: String,
}

/// The credentials sent to register or to log in.
#[derive(Debug, Clone, PartialEq, Eq)]
pub struct CreateUser {
    pub username: String,
    pub password: String,
}

/// A task of a user.
#[derive(Debug, Clone, PartialEq, Eq)]
pub struct Task {
    pub id: i64,
    pub user_id: i64,
    pub title: String,
    pub description: Option<String>,
    pub completed: bool,
    pub created_at: String,
    pub updated_at: String,
}

/// The fields of a task to create.
#[derive(Debug, Clone, PartialEq, Eq)]
pub struct CreateTask {
    pub title: String,
    pub description: Option<String>,
}

/// The changes to make to a task; a field left `None` is kept as it is.
#[derive(Debug, Clone, PartialEq, Eq)]
pub struct UpdateTask {
    pub id: i64,
    pub title: Option<String>,
    pub description: Option<Option<String>>,
    pub completed: Option<bool>,
}

/// The reply to a successful login or registration, as the client reads it.
#[derive(Debug, Clone, PartialEq, Eq)]
pub struct AuthResponse {
    pub token: String,
    pub user: User,
    pub message: String,
}

/// The reply to a successful login: the session token, the account and a message.
#[derive(Debug, Clone, PartialEq, Eq)]
pub struct LoginReply {
    pub token: String,
    pub user: UserRecord,
    pub message: String,
}

/// The reply to a successful registration: the new account and a message.
#[derive(Debug, Clone, PartialEq, Eq)]
pub struct RegisterReply {
    pub user: UserRecord,
    pub message: String,
}

impl Default for CreateTask {
    /// An empty form: no title, no description.
    fn default() -> (r: Self)
        ensures
            r.title@ == Seq::<char>::empty(),
            r.description is None,
    {
        CreateTask { title: String::new(), description: None }
    }
}

impl Default for UpdateTask {
    /// No changes, for task id 0.
    fn default() -> (r: Self)
        ensures
            r.id == 0,
            r.title is None,
            r.description is None,
            r.completed is None,
    {
        UpdateTask { id: 0, title: None, description: None, completed: None }
    }
}

} // verus!
