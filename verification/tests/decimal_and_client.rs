use task_management_app::client::{
    bearer_header, completed_text, description_text, failure_message, not_authenticated_text,
    parse_task_id, reply_action, task_list_step, task_not_found_text, task_path, ClientRequest,
    ReplyAction, TaskListStep,
};
use task_management_app::decimal::{format_i64, parse_i64};
use task_management_app::error::ErrorResponse;

#[test]
fn formats_like_display() {
    for n in [0i64, 7, 10, 42, -1, -42, 1000, i64::MAX, i64::MIN, -1000000007] {
        assert_eq!(format_i64(n), n.to_string());
    }
}

#[test]
fn parses_like_from_str() {
    let cases = [
        "", "+", "-", "0", "-0", "+0", "007", "123", "+5", "-17", "12a", "a12", " 1", "1 ",
        "9223372036854775807", "9223372036854775808", "-9223372036854775808",
        "-9223372036854775809", "99999999999999999999999", "+-1", "--1", "١٢",
    ];
    for s in cases {
        assert_eq!(parse_i64(s), s.parse::<i64>().ok(), "input {:?}", s);
    }
    assert_eq!(parse_i64("-9223372036854775808"), Some(i64::MIN));
    assert_eq!(parse_i64("007"), Some(7));
    assert_eq!(parse_i64("9223372036854775808"), None);
}

#[test]
fn formatted_id_parses_back() {
    for n in [0i64, 1, -1, 123456789, i64::MAX, i64::MIN, -99] {
        assert_eq!(parse_i64(&format_i64(n)), Some(n));
    }
}

#[test]
fn task_paths_and_ids() {
    assert_eq!(task_path(42), "/api/tasks/42");
    assert_eq!(task_path(-3), "/api/tasks/-3");
    assert_eq!(parse_task_id(Some("42")), Some(42));
    assert_eq!(parse_task_id(Some("x")), None);
    assert_eq!(parse_task_id(None), None);
    let p = task_path(987654321);
    assert_eq!(parse_task_id(Some(&p["/api/tasks/".len()..])), Some(987654321));
}

#[test]
fn bearer_header_prefixes_token() {
    assert_eq!(bearer_header("abc.def.ghi"), "Bearer abc.def.ghi");
    assert_eq!(bearer_header(""), "Bearer ");
}

#[test]
fn task_display_texts() {
    assert_eq!(description_text(&None), "No description");
    assert_eq!(description_text(&Some("buy milk".to_string())), "buy milk");
    assert_eq!(completed_text(true), "Yes");
    assert_eq!(completed_text(false), "No");
    assert_eq!(not_authenticated_text(), "Not authenticated");
    assert_eq!(task_not_found_text(), "Task not found");
}

#[test]
fn replies_are_classified_by_status() {
    assert_eq!(reply_action(ClientRequest::Login, 200), ReplyAction::Accept);
    assert_eq!(reply_action(ClientRequest::Login, 401), ReplyAction::ReadError);
    assert_eq!(reply_action(ClientRequest::CreateTask, 201), ReplyAction::Accept);
    assert_eq!(reply_action(ClientRequest::CreateTask, 200), ReplyAction::ReadError);
    assert_eq!(reply_action(ClientRequest::DeleteTask, 204), ReplyAction::Accept);
    assert_eq!(reply_action(ClientRequest::FetchTask, 404), ReplyAction::NotFound);
    assert_eq!(reply_action(ClientRequest::FetchTasks, 404), ReplyAction::ReadError);
    assert_eq!(reply_action(ClientRequest::FetchTask, 200), ReplyAction::Accept);
}

#[test]
fn failure_messages_prefer_server_text() {
    let e = ErrorResponse { error: "Token expired".to_string() };
    assert_eq!(failure_message(ClientRequest::FetchTasks, Some(e)), "Token expired");
    let expected = [
        (ClientRequest::Register, "Registration failed"),
        (ClientRequest::Login, "Login failed"),
        (ClientRequest::FetchTasks, "Failed to fetch tasks"),
        (ClientRequest::CreateTask, "Failed to create task"),
        (ClientRequest::UpdateTask, "Failed to update task"),
        (ClientRequest::DeleteTask, "Failed to delete task"),
        (ClientRequest::FetchTask, "Failed to fetch task details"),
    ];
    for (req, text) in expected {
        assert_eq!(failure_message(req, None), text);
    }
}

#[test]
fn task_list_steps_follow_token_and_reply() {
    for req in [ClientRequest::FetchTasks, ClientRequest::CreateTask, ClientRequest::DeleteTask] {
        assert_eq!(task_list_step(req, false, None), TaskListStep::ShowNotAuthenticated);
        assert_eq!(task_list_step(req, false, Some(ReplyAction::Accept)), TaskListStep::ShowNotAuthenticated);
        assert_eq!(task_list_step(req, true, None), TaskListStep::Send);
        assert_eq!(task_list_step(req, true, Some(ReplyAction::ReadError)), TaskListStep::ShowFailure);
    }
    assert_eq!(task_list_step(ClientRequest::FetchTasks, true, Some(ReplyAction::Accept)), TaskListStep::ShowTasks);
    assert_eq!(task_list_step(ClientRequest::UpdateTask, true, Some(ReplyAction::Accept)), TaskListStep::Refresh);
    assert_eq!(task_list_step(ClientRequest::CreateTask, true, Some(ReplyAction::Accept)), TaskListStep::Refresh);
}
