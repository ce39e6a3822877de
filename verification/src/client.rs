use vstd::prelude::*;
use crate::auth::bearer_prefix;
use crate::decimal::{decimal_text, format_i64, lemma_parse_decimal_text, parse_i64, parse_i64_spec};
use crate::error::{ErrorResponse, JSON_REPLY_STATUS};
use crate::tasks::{TASK_CREATED_STATUS, TASK_DELETED_STATUS};

verus! {

/// The `Authorization` header value that carries a bearer token.
pub fn bearer_header(token: &str) -> (r: String)
    ensures
        r@ == bearer_prefix() + token@,
{
    proof {
        reveal_strlit("Bearer ");
    }
    let mut r = String::from_str("Bearer ");
    r.append(token);
    r
}

/// The path under which the tasks collection is served.
pub open spec fn tasks_path() -> Seq<char> {
    "/api/tasks/"@
}

/// The path of one task: `/api/tasks/<id>`.
pub fn task_path(id: i64) -> (r: String)
    ensures
        r@ == tasks_path() + decimal_text(id as int),
{
    let mut r = String::from_str("/api/tasks/");
    let digits = format_i64(id);
    r.append(digits.as_str());
    r
}

/// The task id given by the route parameter `id`; a missing parameter reads as
/// the empty text, and text that is not an `i64` gives no id.
pub fn parse_task_id(param: Option<&str>) -> (r: Option<i64>)
    ensures
        match param {
            Some(p) => match r {
                Some(v) => parse_i64_spec(p@) == Some(v as int),
                None => parse_i64_spec(p@) is None,
            },
            None => r is None,
        },
{
    match param {
        Some(p) => parse_i64(p),
        None => {
            let empty = String::new();
            parse_i64(empty.as_str())
        },
    }
}

/// The text shown for a task's description.
pub fn description_text(description: &Option<String>) -> (r: String)
    ensures
        match description {
            Some(d) => r@ == d@,
            None => r@ == "No description"@,
        },
{
    match description {
        Some(d) => d.clone(),
        None => String::from_str("No description"),
    }
}

/// The text shown for whether a task is completed.
pub fn completed_text(completed: bool) -> (r: &'static str)
    ensures
        r@ == (if completed { "Yes"@ } else { "No"@ }),
{
    if completed { "Yes" } else { "No" }
}

/// A request that the client makes to the server.
#[derive(Debug, Clone, Copy, PartialEq, Eq, Structural)]
pub enum ClientRequest {
    Register,
    Login,
    FetchTasks,
    CreateTask,
    UpdateTask,
    DeleteTask,
    FetchTask,
}

/// What the client does with a reply, by its status.
#[derive(Debug, Clone, Copy, PartialEq, Eq, Structural)]
pub enum ReplyAction {
    /// The request succeeded: read the reply's content, if it has any.
    Accept,
    /// The task asked for does not exist.
    NotFound,
    /// The request failed: read the error message from the reply.
    ReadError,
}

/// The status that marks success for each request.
pub open spec fn success_status(req: ClientRequest) -> u16 {
    match req {
        ClientRequest::CreateTask => 201,
        ClientRequest::DeleteTask => 204,
        _ => 200,
    }
}

/// The client accepts exactly the status that the server answers a
/// successful request with: 201 for a created task, 204 for a deleted one, and
/// the status of a plain JSON reply (200) for registering, logging in,
/// fetching and updating.
pub proof fn lemma_success_status_is_server_reply_status(req: ClientRequest)
    ensures
        success_status(req) == match req {
            ClientRequest::CreateTask => TASK_CREATED_STATUS,
            ClientRequest::DeleteTask => TASK_DELETED_STATUS,
            _ => JSON_REPLY_STATUS,
        },
        req == ClientRequest::Register ==> success_status(req) == 200,
        req == ClientRequest::Login ==> success_status(req) == 200,
{
}

/// How the client treats a reply with `status` to `req`.
pub fn reply_action(req: ClientRequest, status: u16) -> (r: ReplyAction)
    ensures
        status == success_status(req) ==> r == ReplyAction::Accept,
        status != success_status(req) && req == ClientRequest::FetchTask && status == 404 ==> r
            == ReplyAction::NotFound,
        status != success_status(req) && !(req == ClientRequest::FetchTask && status == 404) ==> r
            == ReplyAction::ReadError,
        req == ClientRequest::CreateTask ==> (r == ReplyAction::Accept <==> status
            == TASK_CREATED_STATUS),
        req == ClientRequest::DeleteTask ==> (r == ReplyAction::Accept <==> status
            == TASK_DELETED_STATUS),
        req != ClientRequest::CreateTask && req != ClientRequest::DeleteTask ==> (r
            == ReplyAction::Accept <==> status == JSON_REPLY_STATUS),
{
    let success: u16 = match req {
        ClientRequest::CreateTask => 201,
        ClientRequest::DeleteTask => 204,
        _ => 200,
    };
    if status == success {
        ReplyAction::Accept
    } else if req == ClientRequest::FetchTask && status == 404 {
        ReplyAction::NotFound
    } else {
        ReplyAction::ReadError
    }
}

/// The next step of the task list for a request to the tasks endpoints.
#[derive(Debug, Clone, Copy, PartialEq, Eq, Structural)]
pub enum TaskListStep {
    /// Send the request with the session token.
    Send,
    /// Show the tasks that the reply lists.
    ShowTasks,
    /// Fetch the task list again: the change took effect.
    Refresh,
    /// Show that the client holds no session token; nothing is sent.
    ShowNotAuthenticated,
    /// Show the failure message that the reply gives.
    ShowFailure,
}

/// The step of the task list for `req` (fetching the list, or creating,
/// updating or deleting a task): without a session token nothing is sent and
/// the client shows that it is not authenticated; with one, the request is
/// sent (no reply yet), and then a successful reply to the fetch shows the
/// tasks, a successful reply to a change fetches the list again, and any other
/// reply shows its failure message.
pub fn task_list_step(req: ClientRequest, has_token: bool, reply: Option<ReplyAction>) -> (r: TaskListStep)
    ensures
        !has_token ==> r == TaskListStep::ShowNotAuthenticated,
        has_token && reply is None ==> r == TaskListStep::Send,
        has_token && reply == Some(ReplyAction::Accept) && req == ClientRequest::FetchTasks ==> r
            == TaskListStep::ShowTasks,
        has_token && reply == Some(ReplyAction::Accept) && req != ClientRequest::FetchTasks ==> r
            == TaskListStep::Refresh,
        has_token && reply is Some && reply != Some(ReplyAction::Accept) ==> r
            == TaskListStep::ShowFailure,
{
    if !has_token {
        TaskListStep::ShowNotAuthenticated
    } else {
        match reply {
            None => TaskListStep::Send,
            Some(ReplyAction::Accept) => {
                if req == ClientRequest::FetchTasks {
                    TaskListStep::ShowTasks
                } else {
                    TaskListStep::Refresh
                }
            },
            Some(_) => TaskListStep::ShowFailure,
        }
    }
}

/// The message shown when a request fails and its reply carries no readable
/// error message.
pub open spec fn fallback_message(req: ClientRequest) -> Seq<char> {
    match req {
        ClientRequest::Register => "Registration failed"@,
        ClientRequest::Login => "Login failed"@,
        ClientRequest::FetchTasks => "Failed to fetch tasks"@,
        ClientRequest::CreateTask => "Failed to create task"@,
        ClientRequest::UpdateTask => "Failed to update task"@,
        ClientRequest::DeleteTask => "Failed to delete task"@,
        ClientRequest::FetchTask => "Failed to fetch task details"@,
    }
}

/// The message shown when the client holds no session token.
pub open spec fn not_authenticated_message() -> Seq<char> {
    "Not authenticated"@
}

/// The message shown when the task asked for does not exist.
pub open spec fn task_not_found_message() -> Seq<char> {
    "Task not found"@
}

/// The message shown when the client holds no session token.
pub fn not_authenticated_text() -> (r: String)
    ensures
        r@ == not_authenticated_message(),
{
    String::from_str("Not authenticated")
}

/// The message shown when the task asked for does not exist.
pub fn task_not_found_text() -> (r: String)
    ensures
        r@ == task_not_found_message(),
{
    String::from_str("Task not found")
}

/// The message shown for a failed request: the server's error message where
/// the reply carries one, else the request's fallback message.
pub fn failure_message(req: ClientRequest, reply: Option<ErrorResponse>) -> (r: String)
    ensures
        match reply {
            Some(e) => r@ == e.error@,
            None => r@ == fallback_message(req),
        },
{
    match reply {
        Some(e) => e.error,
        None => String::from_str(
            match req {
                ClientRequest::Register => "Registration failed",
                ClientRequest::Login => "Login failed",
                ClientRequest::FetchTasks => "Failed to fetch tasks",
                ClientRequest::CreateTask => "Failed to create task",
                ClientRequest::UpdateTask => "Failed to update task",
                ClientRequest::DeleteTask => "Failed to delete task",
                ClientRequest::FetchTask => "Failed to fetch task details",
            },
        ),
    }
}

/// The id in a task's path reads back as that id: the text after
/// `/api/tasks/` in `task_path(id)` parses as `id`.
pub proof fn lemma_task_path_names_task(id: i64)
    ensures
        parse_i64_spec((tasks_path() + decimal_text(id as int)).skip(tasks_path().len() as int))
            == Some(id as int),
{
    lemma_parse_decimal_text(id as int);
    assert((tasks_path() + decimal_text(id as int)).skip(tasks_path().len() as int)
        =~= decimal_text(id as int));
}

} // verus!
