use task_management_app::auth::get_user_id;
use task_management_app::error::{AuthError, ErrorReply, ErrorResponse, JSON_REPLY_STATUS};
use task_management_app::models::{CreateTask, UpdateTask};
use task_management_app::tasks::{delete_outcome, update_outcome, TASK_CREATED_STATUS, TASK_DELETED_STATUS};

#[test]
fn every_error_maps_to_its_status_and_message() {
    let cases = [
        (AuthError::WrongCredentials, 401, "Wrong credentials"),
        (AuthError::Unauthorized, 401, "Unauthorized"),
        (AuthError::DatabaseError, 500, "Database error"),
        (AuthError::TokenExpired, 401, "Token expired"),
        (AuthError::TokenInvalid, 401, "Token invalid"),
        (AuthError::MissingAuthHeader, 400, "Missing authorization header"),
        (AuthError::InternalServerError, 500, "Internal server error"),
    ];
    for (e, status, message) in cases {
        assert_eq!(e.status_and_message(), (status, message));
    }
}

#[test]
fn error_reply_carries_message_in_json_reply() {
    let reply = AuthError::WrongCredentials.into_response();
    assert_eq!(
        reply,
        ErrorReply { status: 200, body: ErrorResponse { error: "Wrong credentials".to_string() } }
    );
    assert_eq!(JSON_REPLY_STATUS, 200);
    let reply = AuthError::MissingAuthHeader.into_response();
    assert_eq!(reply.body.error, "Missing authorization header");
}

#[test]
fn recorded_user_id_is_required() {
    assert_eq!(get_user_id(Some(7)), Ok(7));
    assert_eq!(get_user_id(Some(-3)), Ok(-3));
    assert_eq!(get_user_id(None), Err(AuthError::Unauthorized));
}

#[test]
fn update_of_no_row_is_unauthorized() {
    assert_eq!(update_outcome(0), Err(AuthError::Unauthorized));
    assert_eq!(update_outcome(1), Ok(()));
    assert_eq!(update_outcome(5), Ok(()));
}

#[test]
fn delete_gives_no_content_or_unauthorized() {
    assert_eq!(delete_outcome(1), Ok(204));
    assert_eq!(delete_outcome(3), Ok(TASK_DELETED_STATUS));
    assert_eq!(delete_outcome(0), Err(AuthError::Unauthorized));
    assert_eq!(TASK_CREATED_STATUS, 201);
}

#[test]
fn description_change_flattens_explicit_empty() {
    let mut u = UpdateTask::default();
    assert_eq!(u.id, 0);
    assert_eq!(u.description_param(), None);
    u.description = Some(None);
    assert_eq!(u.description_param(), None);
    u.description = Some(Some("new text".to_string()));
    assert_eq!(u.description_param(), Some("new text".to_string()));
}

#[test]
fn default_forms_are_empty() {
    let c = CreateTask::default();
    assert_eq!(c.title, "");
    assert_eq!(c.description, None);
    let u = UpdateTask::default();
    assert_eq!(u, UpdateTask { id: 0, title: None, description: None, completed: None });
}
