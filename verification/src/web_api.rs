use vstd::prelude::*;
use vstd::string::*;
use crate::database::{
    AddUserNext, AuthKey, DbError, Task, TaskView, User, UserView, add_user, add_user_inserted,
    auth_key_to_user, opt_text, user_exists,
};
use crate::http::{
    BodyView, HttpReply, ReplyBody, ReplyView, Status, empty_reply, id_reply, reply_with_id,
    task_views,
};
use crate::domain_types::{
    CleartextPassword, TaskDescription, TaskTitle, Username, blank_title_message,
    blank_username_message, is_blank,
};
use crate::ids::new_uuid;
use crate::passwords::{
    argon2_accepts, argon2_hash, default_phc_prefix, generate_salt, hash_password, parse_phc, phc_parses, verify_password,
};
use crate::service::{ApplicationError, auth_key_error, error_reply};

verus! {

/// The outside work that a request needs next, or the reply that ends it.
#[allow(inconsistent_fields)]
#[derive(Debug)]
pub enum Action {
    /// Open a connection to the database.
    Connect,
    /// Load the rows of auth_keys with this key, each joined with its user.
    FindUserByAuthKey(String),
    /// Load the users with this name.
    FindUsersByName(String),
    /// Load the task with this id.
    FindTask(i32),
    /// Load the tasks that this user owns.
    FindTasksOwnedBy(i32),
    /// Insert a user row.
    InsertUser { username: String, password_hash: String },
    /// Insert a task row and load it back.
    InsertTask { owner: i32, title: String, description: String, completed: bool },
    /// Change the given fields of a task.
    UpdateTask {
        id: i32,
        completed: Option<bool>,
        title: Option<String>,
        description: Option<String>,
    },
    /// Insert an auth key for a user.
    InsertAuthKey { user_id: i32, key: String },
    /// Delete the auth key.
    DeleteAuthKey(String),
    /// Send this reply; the request is over.
    Respond(HttpReply),
}

/// What came of the outside work that an `Action` asked for.
#[derive(Debug)]
pub enum Event {
    /// The answer to `Connect`; the error's message where it failed.
    Connected(Result<(), String>),
    /// The answer to `FindUserByAuthKey`.
    UserKeyRows(Result<Vec<(AuthKey, User)>, DbError>),
    /// The answer to `FindUsersByName`.
    UserRows(Result<Vec<User>, DbError>),
    /// The answer to `FindTask`, `FindTasksOwnedBy` and `InsertTask`.
    TaskRows(Result<Vec<Task>, DbError>),
    /// The answer to `InsertUser`, `UpdateTask`, `InsertAuthKey` and
    /// `DeleteAuthKey`: the number of rows written, or the error's message.
    Executed(Result<usize, String>),
}

/// `a` sends a reply whose value is `v`.
pub open spec fn replies(a: Action, v: ReplyView) -> bool {
    a matches Action::Respond(r) && r@ == v
}

/// The reply to a failure of the server's own: 500 with the request's id.
pub open spec fn internal_error(request_id: Seq<char>) -> ReplyView {
    id_reply(Status::InternalServerError, request_id)
}

/// The reply to input that was refused before any outside work.
pub open spec fn bad_request(request_id: Seq<char>, message: Seq<char>) -> ReplyView {
    ReplyView { status: Status::BadRequest, body: BodyView::Message(request_id, message) }
}

/// A fresh request id.
fn new_request_id() -> (r: String)
    ensures
        r@.len() == 36,
{
    new_uuid()
}

/// An endpoint to check that the server is up: it always answers 200 with
/// no body.
pub fn is_alive() -> (r: HttpReply)
    ensures
        r@ == (ReplyView { status: Status::Success, body: BodyView::Empty }),
{
    empty_reply(Status::Success)
}

/// The user that an auth key lookup found: the first row's user.
pub open spec fn key_owner(rows: Result<Vec<(AuthKey, User)>, DbError>) -> Option<UserView> {
    match rows {
        Ok(v) => if v@.len() > 0 {
            Some(v@[0].1@)
        } else {
            None
        },
        Err(_) => None,
    }
}

/// The reply when an auth key lookup found no user: 401 when the key is
/// unknown, 500 when the database failed.
pub open spec fn key_lookup_failure(
    rows: Result<Vec<(AuthKey, User)>, DbError>,
    request_id: Seq<char>,
) -> ReplyView {
    match rows {
        Err(DbError::Failed(_)) => internal_error(request_id),
        _ => id_reply(Status::Unauthorized, request_id),
    }
}

/// The user that an auth key belongs to, or the reply that ends the request
/// when there is none.
fn owner_of_key(rows: Result<Vec<(AuthKey, User)>, DbError>, request_id: &String) -> (r: Result<
    User,
    HttpReply,
>)
    ensures
        key_owner(rows) matches Some(u) ==> (r matches Ok(x) && x@ == u),
        key_owner(rows) is None ==> (r matches Err(reply) && reply@ == key_lookup_failure(
            rows,
            request_id@,
        )),
{
    match auth_key_to_user(rows) {
        Ok(user) => Ok(user),
        Err(e) => Err(auth_key_error(e).into_http_response(request_id)),
    }
}

/// Where a `whoami` request stands.
pub enum WhoAmIStage {
    AwaitConnection { auth_key: String },
    AwaitUser,
    Finished,
}

/// A `whoami` request under way.
pub struct WhoAmI {
    pub request_id: String,
    pub stage: WhoAmIStage,
}

/// The stages at which `whoami` waits for `event`.
pub open spec fn whoami_expects(stage: WhoAmIStage, event: Event) -> bool {
    ||| stage is AwaitConnection && event is Connected
    ||| stage is AwaitUser && event is UserKeyRows
}

/// Returns the username of the currently logged in user: the start of the
/// request, which first asks for a database connection.
pub fn whoami(auth_key: String) -> (r: (WhoAmI, Action))
    ensures
        r.0.request_id@.len() == 36,
        r.0.stage matches WhoAmIStage::AwaitConnection { auth_key: k } && k@ == auth_key@,
        r.1 is Connect,
{
    (WhoAmI { request_id: new_request_id(), stage: WhoAmIStage::AwaitConnection { auth_key } }, Action::Connect)
}

/// The next step of a `whoami` request: with a connection it looks up the
/// key's user, and answers 200 with the user's name, or 401 for an unknown
/// key.
pub fn whoami_step(state: WhoAmI, event: Event) -> (r: (WhoAmI, Action))
    ensures
        r.0.request_id@ == state.request_id@,
        state.stage matches WhoAmIStage::AwaitConnection { auth_key } ==> (event matches Event::Connected(Ok(_))
            ==> (r.0.stage is AwaitUser && (r.1 matches Action::FindUserByAuthKey(k) && k@ == auth_key@))),
        state.stage is AwaitConnection ==> (event matches Event::Connected(Err(_)) ==> (r.0.stage is Finished
            && replies(r.1, internal_error(state.request_id@)))),
        state.stage is AwaitUser ==> (event matches Event::UserKeyRows(rows) ==> (r.0.stage is Finished
            && (key_owner(rows) matches Some(u) ==> replies(r.1, ReplyView {
            status: Status::Success,
            body: BodyView::Username(state.request_id@, u.username),
        })) && (key_owner(rows) is None ==> replies(r.1, key_lookup_failure(rows, state.request_id@))))),
        !whoami_expects(state.stage, event) ==> (r.0.stage is Finished && replies(r.1, internal_error(state.request_id@))),
{
    let request_id = state.request_id;
    match (state.stage, event) {
        (WhoAmIStage::AwaitConnection { auth_key }, Event::Connected(connected)) => {
            match connected {
                Ok(()) => (WhoAmI { request_id, stage: WhoAmIStage::AwaitUser }, Action::FindUserByAuthKey(auth_key)),
                Err(_) => {
                    let reply = reply_with_id(Status::InternalServerError, &request_id);
                    (WhoAmI { request_id, stage: WhoAmIStage::Finished }, Action::Respond(reply))
                },
            }
        },
        (WhoAmIStage::AwaitUser, Event::UserKeyRows(rows)) => {
            let reply = match owner_of_key(rows, &request_id) {
                Ok(user) => HttpReply {
                    status: Status::Success,
                    body: ReplyBody::Username { request_id: request_id.clone(), username: user.ref_username().clone() },
                },
                Err(reply) => reply,
            };
            (WhoAmI { request_id, stage: WhoAmIStage::Finished }, Action::Respond(reply))
        },
        _ => {
            let reply = reply_with_id(Status::InternalServerError, &request_id);
            (WhoAmI { request_id, stage: WhoAmIStage::Finished }, Action::Respond(reply))
        },
    }
}

/// The reply to a request that ended in `e`.
fn error_response(e: ApplicationError, request_id: &String) -> (r: HttpReply)
    ensures
        r@ == error_reply(e, request_id@),
{
    e.into_http_response(request_id)
}

/// Where a `logout` request stands.
pub enum LogoutStage {
    AwaitConnection { auth_key: String },
    AwaitDeletion,
    Finished,
}

/// A `logout` request under way.
pub struct Logout {
    pub request_id: String,
    pub stage: LogoutStage,
}

/// The stages at which `logout` waits for `event`.
pub open spec fn logout_expects(stage: LogoutStage, event: Event) -> bool {
    ||| stage is AwaitConnection && event is Connected
    ||| stage is AwaitDeletion && event is Executed
}

/// Ends the session of an auth key: the start of the request, which first
/// asks for a database connection.
pub fn logout(auth_key: String) -> (r: (Logout, Action))
    ensures
        r.0.request_id@.len() == 36,
        r.0.stage matches LogoutStage::AwaitConnection { auth_key: k } && k@ == auth_key@,
        r.1 is Connect,
{
    (Logout { request_id: new_request_id(), stage: LogoutStage::AwaitConnection { auth_key } }, Action::Connect)
}

/// The next step of a `logout` request: with a connection it deletes the
/// key, and answers 200 with no body once a key was deleted, 401 where the
/// key did not exist.
pub fn logout_step(state: Logout, event: Event) -> (r: (Logout, Action))
    ensures
        r.0.request_id@ == state.request_id@,
        state.stage matches LogoutStage::AwaitConnection { auth_key } ==> (event matches Event::Connected(Ok(_))
            ==> (r.0.stage is AwaitDeletion && (r.1 matches Action::DeleteAuthKey(k) && k@ == auth_key@))),
        state.stage is AwaitConnection ==> (event matches Event::Connected(Err(_)) ==> (r.0.stage is Finished
            && replies(r.1, internal_error(state.request_id@)))),
        state.stage is AwaitDeletion ==> (event matches Event::Executed(Ok(n)) ==> (r.0.stage is Finished
            && (n > 0 ==> replies(r.1, ReplyView { status: Status::Success, body: BodyView::Empty }))
            && (n == 0 ==> replies(r.1, id_reply(Status::Unauthorized, state.request_id@))))),
        state.stage is AwaitDeletion ==> (event matches Event::Executed(Err(_)) ==> (r.0.stage is Finished
            && replies(r.1, internal_error(state.request_id@)))),
        !logout_expects(state.stage, event) ==> (r.0.stage is Finished && replies(r.1, internal_error(state.request_id@))),
{
    let request_id = state.request_id;
    match (state.stage, event) {
        (LogoutStage::AwaitConnection { auth_key }, Event::Connected(Ok(()))) => {
            (Logout { request_id, stage: LogoutStage::AwaitDeletion }, Action::DeleteAuthKey(auth_key))
        },
        (LogoutStage::AwaitDeletion, Event::Executed(Ok(n))) => {
            let reply = if n > 0 {
                empty_reply(Status::Success)
            } else {
                error_response(ApplicationError::InvalidAuthKey, &request_id)
            };
            (Logout { request_id, stage: LogoutStage::Finished }, Action::Respond(reply))
        },
        (LogoutStage::AwaitDeletion, Event::Executed(Err(m))) => {
            let reply = error_response(ApplicationError::QueryFailed(m), &request_id);
            (Logout { request_id, stage: LogoutStage::Finished }, Action::Respond(reply))
        },
        _ => {
            let reply = reply_with_id(Status::InternalServerError, &request_id);
            (Logout { request_id, stage: LogoutStage::Finished }, Action::Respond(reply))
        },
    }
}

/// The message with which a request about a task that does not exist is
/// refused.
pub open spec fn no_such_task_message() -> Seq<char> {
    "No task has the given id."@
}

/// The task that a lookup found: the first row.
pub open spec fn first_task(rows: Result<Vec<Task>, DbError>) -> Option<TaskView> {
    match rows {
        Ok(v) => if v@.len() > 0 {
            Some(v@[0]@)
        } else {
            None
        },
        Err(_) => None,
    }
}

/// The reply when a task lookup found no task: 400 when there is none with
/// the id, 500 when the database failed.
pub open spec fn task_lookup_failure(rows: Result<Vec<Task>, DbError>, request_id: Seq<char>) -> ReplyView {
    match rows {
        Ok(_) => bad_request(request_id, no_such_task_message()),
        Err(_) => internal_error(request_id),
    }
}

/// The task that a lookup found, or the reply that ends the request when
/// there is none.
fn found_task(rows: Result<Vec<Task>, DbError>, request_id: &String) -> (r: Result<Task, HttpReply>)
    ensures
        first_task(rows) matches Some(t) ==> (r matches Ok(x) && x@ == t),
        first_task(rows) is None ==> (r matches Err(reply) && reply@ == task_lookup_failure(
            rows,
            request_id@,
        )),
{
    match rows {
        Ok(mut v) => {
            if v.len() > 0 {
                Ok(v.remove(0))
            } else {
                let message = String::from_str("No task has the given id.");
                proof {
                    reveal_strlit("No task has the given id.");
                }
                Err(error_response(ApplicationError::InvalidData(message), request_id))
            }
        },
        Err(e) => Err(error_response(ApplicationError::DieselError(e), request_id)),
    }
}

/// Where a `get_task_by_id` request stands.
pub enum GetTaskByIdStage {
    AwaitConnection { auth_key: String, id: i32 },
    AwaitTask { auth_key: String },
    AwaitUser { task: Task },
    Finished,
}

/// A `get_task_by_id` request under way.
pub struct GetTaskById {
    pub request_id: String,
    pub stage: GetTaskByIdStage,
}

/// The stages at which `get_task_by_id` waits for `event`.
pub open spec fn get_task_by_id_expects(stage: GetTaskByIdStage, event: Event) -> bool {
    ||| stage is AwaitConnection && event is Connected
    ||| stage is AwaitTask && event is TaskRows
    ||| stage is AwaitUser && event is UserKeyRows
}

/// Returns a specific task based on the ID of the given task: the start of
/// the request, which first asks for a database connection.
pub fn get_task_by_id(auth_key: String, id: i32) -> (r: (GetTaskById, Action))
    ensures
        r.0.request_id@.len() == 36,
        r.0.stage matches GetTaskByIdStage::AwaitConnection { auth_key: k, id: i } && k@ == auth_key@
            && i == id,
        r.1 is Connect,
{
    (
        GetTaskById { request_id: new_request_id(), stage: GetTaskByIdStage::AwaitConnection { auth_key, id } },
        Action::Connect,
    )
}

/// The next step of a `get_task_by_id` request: it loads the task, then
/// the key's user, and answers 200 with the task only when that user owns
/// it; any other user gets 401.
pub fn get_task_by_id_step(state: GetTaskById, event: Event) -> (r: (GetTaskById, Action))
    ensures
        r.0.request_id@ == state.request_id@,
        state.stage matches GetTaskByIdStage::AwaitConnection { auth_key, id } ==> (event matches Event::Connected(Ok(_))
            ==> ((r.0.stage matches GetTaskByIdStage::AwaitTask { auth_key: k } && k@ == auth_key@)
            && r.1 == Action::FindTask(id))),
        state.stage is AwaitConnection ==> (event matches Event::Connected(Err(_)) ==> (r.0.stage is Finished
            && replies(r.1, internal_error(state.request_id@)))),
        state.stage matches GetTaskByIdStage::AwaitTask { auth_key } ==> (event matches Event::TaskRows(rows) ==> (
            (first_task(rows) matches Some(t) ==> (r.0.stage matches GetTaskByIdStage::AwaitUser { task }
            && task@ == t && (r.1 matches Action::FindUserByAuthKey(k) && k@ == auth_key@)))
            && (first_task(rows) is None ==> (r.0.stage is Finished && replies(r.1, task_lookup_failure(rows, state.request_id@)))))),
        state.stage matches GetTaskByIdStage::AwaitUser { task } ==> (event matches Event::UserKeyRows(rows) ==> (
            r.0.stage is Finished
            && (key_owner(rows) matches Some(u) ==> (u.id == task@.owner ==> replies(r.1, ReplyView {
                status: Status::Success,
                body: BodyView::Task(state.request_id@, task@),
            })))
            && (key_owner(rows) matches Some(u) ==> (u.id != task@.owner ==> replies(r.1, id_reply(Status::Unauthorized, state.request_id@))))
            && (key_owner(rows) is None ==> replies(r.1, key_lookup_failure(rows, state.request_id@))))),
        !get_task_by_id_expects(state.stage, event) ==> (r.0.stage is Finished && replies(r.1, internal_error(state.request_id@))),
{
    let request_id = state.request_id;
    match (state.stage, event) {
        (GetTaskByIdStage::AwaitConnection { auth_key, id }, Event::Connected(Ok(()))) => {
            (GetTaskById { request_id, stage: GetTaskByIdStage::AwaitTask { auth_key } }, Action::FindTask(id))
        },
        (GetTaskByIdStage::AwaitTask { auth_key }, Event::TaskRows(rows)) => {
            match found_task(rows, &request_id) {
                Ok(task) => (
                    GetTaskById { request_id, stage: GetTaskByIdStage::AwaitUser { task } },
                    Action::FindUserByAuthKey(auth_key),
                ),
                Err(reply) => (GetTaskById { request_id, stage: GetTaskByIdStage::Finished }, Action::Respond(reply)),
            }
        },
        (GetTaskByIdStage::AwaitUser { task }, Event::UserKeyRows(rows)) => {
            let reply = match owner_of_key(rows, &request_id) {
                Ok(user) => {
                    if *user.ref_id() == *task.owner_id() {
                        HttpReply { status: Status::Success, body: ReplyBody::Task { request_id: request_id.clone(), task } }
                    } else {
                        error_response(ApplicationError::Unauthorized, &request_id)
                    }
                },
                Err(reply) => reply,
            };
            (GetTaskById { request_id, stage: GetTaskByIdStage::Finished }, Action::Respond(reply))
        },
        _ => {
            let reply = reply_with_id(Status::InternalServerError, &request_id);
            (GetTaskById { request_id, stage: GetTaskByIdStage::Finished }, Action::Respond(reply))
        },
    }
}

/// The tasks of `tasks`, in order, that `owner` owns.
pub open spec fn owned_by(tasks: Seq<TaskView>, owner: i32) -> Seq<TaskView> {
    tasks.filter(|t: TaskView| t.owner == owner)
}

/// Keeps the tasks that `owner` owns, in their order.
fn tasks_owned_by(tasks: &Vec<Task>, owner: i32) -> (r: Vec<Task>)
    ensures
        task_views(r@) == owned_by(task_views(tasks@), owner),
{
    let ghost all = task_views(tasks@);
    let mut kept: Vec<Task> = Vec::new();
    let mut i: usize = 0;
    while i < tasks.len()
        invariant
            i <= tasks.len(),
            all == task_views(tasks@),
            task_views(kept@) == owned_by(all.take(i as int), owner),
        decreases tasks.len() - i,
    {
        let task = &tasks[i];
        let ghost before = task_views(kept@);
        proof {
            reveal(Seq::filter);
            let s = all.take(i + 1);
            assert(s.drop_last() =~= all.take(i as int));
            assert(s.last() == task@);
            assert(owned_by(s, owner) == (if task@.owner == owner {
                owned_by(all.take(i as int), owner).push(task@)
            } else {
                owned_by(all.take(i as int), owner)
            }));
        }
        if *task.owner_id() == owner {
            let copy = task.clone();
            kept.push(copy);
            assert(task_views(kept@) =~= before.push(task@));
        }
        i = i + 1;
    }
    assert(all.take(tasks@.len() as int) =~= all);
    kept
}

/// Where a `get_all_tasks` request stands.
pub enum GetAllTasksStage {
    AwaitConnection { auth_key: String },
    AwaitUser,
    AwaitTasks { owner: i32 },
    Finished,
}

/// A `get_all_tasks` request under way.
pub struct GetAllTasks {
    pub request_id: String,
    pub stage: GetAllTasksStage,
}

/// The stages at which `get_all_tasks` waits for `event`.
pub open spec fn get_all_tasks_expects(stage: GetAllTasksStage, event: Event) -> bool {
    ||| stage is AwaitConnection && event is Connected
    ||| stage is AwaitUser && event is UserKeyRows
    ||| stage is AwaitTasks && event is TaskRows
}

/// Returns all the tasks of the logged in user: the start of the request,
/// which first asks for a database connection.
pub fn get_all_tasks(auth_key: String) -> (r: (GetAllTasks, Action))
    ensures
        r.0.request_id@.len() == 36,
        r.0.stage matches GetAllTasksStage::AwaitConnection { auth_key: k } && k@ == auth_key@,
        r.1 is Connect,
{
    (
        GetAllTasks { request_id: new_request_id(), stage: GetAllTasksStage::AwaitConnection { auth_key } },
        Action::Connect,
    )
}

/// The next step of a `get_all_tasks` request: it looks up the key's user,
/// loads that user's tasks and answers 200 with those of them that the user
/// owns.
pub fn get_all_tasks_step(state: GetAllTasks, event: Event) -> (r: (GetAllTasks, Action))
    ensures
        r.0.request_id@ == state.request_id@,
        state.stage matches GetAllTasksStage::AwaitConnection { auth_key } ==> (event matches Event::Connected(Ok(_))
            ==> (r.0.stage is AwaitUser && (r.1 matches Action::FindUserByAuthKey(k) && k@ == auth_key@))),
        state.stage is AwaitConnection ==> (event matches Event::Connected(Err(_)) ==> (r.0.stage is Finished
            && replies(r.1, internal_error(state.request_id@)))),
        state.stage is AwaitUser ==> (event matches Event::UserKeyRows(rows) ==> (
            (key_owner(rows) matches Some(u) ==> ((r.0.stage matches GetAllTasksStage::AwaitTasks { owner } && owner == u.id)
            && r.1 == Action::FindTasksOwnedBy(u.id)))
            && (key_owner(rows) is None ==> (r.0.stage is Finished && replies(r.1, key_lookup_failure(rows, state.request_id@)))))),
        state.stage matches GetAllTasksStage::AwaitTasks { owner } ==> (event matches Event::TaskRows(rows) ==> (
            r.0.stage is Finished
            && (rows matches Ok(v) ==> replies(r.1, ReplyView {
                status: Status::Success,
                body: BodyView::Tasks(state.request_id@, owned_by(task_views(v@), owner)),
            }))
            && (rows is Err ==> replies(r.1, internal_error(state.request_id@))))),
        !get_all_tasks_expects(state.stage, event) ==> (r.0.stage is Finished && replies(r.1, internal_error(state.request_id@))),
{
    let request_id = state.request_id;
    match (state.stage, event) {
        (GetAllTasksStage::AwaitConnection { auth_key }, Event::Connected(Ok(()))) => {
            (GetAllTasks { request_id, stage: GetAllTasksStage::AwaitUser }, Action::FindUserByAuthKey(auth_key))
        },
        (GetAllTasksStage::AwaitUser, Event::UserKeyRows(rows)) => {
            match owner_of_key(rows, &request_id) {
                Ok(user) => {
                    let owner = *user.ref_id();
                    (GetAllTasks { request_id, stage: GetAllTasksStage::AwaitTasks { owner } }, Action::FindTasksOwnedBy(owner))
                },
                Err(reply) => (GetAllTasks { request_id, stage: GetAllTasksStage::Finished }, Action::Respond(reply)),
            }
        },
        (GetAllTasksStage::AwaitTasks { owner }, Event::TaskRows(rows)) => {
            let reply = match rows {
                Ok(v) => HttpReply {
                    status: Status::Success,
                    body: ReplyBody::Tasks { request_id: request_id.clone(), tasks: tasks_owned_by(&v, owner) },
                },
                Err(e) => error_response(ApplicationError::DieselError(e), &request_id),
            };
            (GetAllTasks { request_id, stage: GetAllTasksStage::Finished }, Action::Respond(reply))
        },
        _ => {
            let reply = reply_with_id(Status::InternalServerError, &request_id);
            (GetAllTasks { request_id, stage: GetAllTasksStage::Finished }, Action::Respond(reply))
        },
    }
}

/// The text of an optional description; none stands for the empty text.
pub open spec fn description_text(description: Option<String>) -> Seq<char> {
    match description {
        Some(d) => d@,
        None => Seq::empty(),
    }
}

/// Where an `add_task` request stands.
pub enum AddTaskStage {
    AwaitConnection { auth_key: String, title: TaskTitle, description: TaskDescription },
    AwaitOwner { title: TaskTitle, description: TaskDescription },
    AwaitInsertion,
    Finished,
}

/// An `add_task` request under way.
pub struct AddTask {
    pub request_id: String,
    pub stage: AddTaskStage,
}

/// The stages at which `add_task` waits for `event`.
pub open spec fn add_task_expects(stage: AddTaskStage, event: Event) -> bool {
    ||| stage is AwaitConnection && event is Connected
    ||| stage is AwaitOwner && event is UserKeyRows
    ||| stage is AwaitInsertion && event is TaskRows
}

/// Creates a new task: the start of the request. A blank title is refused
/// with 400 and its message before any outside work; otherwise it asks for a
/// database connection. A missing description is the empty one.
pub fn add_task(auth_key: String, title: String, description: Option<String>) -> (r: (AddTask, Action))
    ensures
        r.0.request_id@.len() == 36,
        is_blank(title@) ==> (r.0.stage is Finished && replies(r.1, bad_request(r.0.request_id@, blank_title_message()))),
        !is_blank(title@) ==> (r.1 is Connect && (r.0.stage matches AddTaskStage::AwaitConnection {
            auth_key: k,
            title: t,
            description: d,
        } && k@ == auth_key@ && t@ == title@ && d@ == description_text(description))),
{
    let request_id = new_request_id();
    match TaskTitle::new(title) {
        Ok(title) => {
            let text = match description {
                Some(d) => d,
                None => String::new(),
            };
            let description = TaskDescription::new(text);
            (
                AddTask { request_id, stage: AddTaskStage::AwaitConnection { auth_key, title, description } },
                Action::Connect,
            )
        },
        Err(message) => {
            let reply = error_response(ApplicationError::InvalidData(message), &request_id);
            (AddTask { request_id, stage: AddTaskStage::Finished }, Action::Respond(reply))
        },
    }
}

/// The next step of an `add_task` request: it looks up the key's user,
/// inserts the task as that user's, not completed, and answers 201 with the
/// new task's id.
pub fn add_task_step(state: AddTask, event: Event) -> (r: (AddTask, Action))
    ensures
        r.0.request_id@ == state.request_id@,
        state.stage matches AddTaskStage::AwaitConnection { auth_key, title, description } ==> (event matches Event::Connected(Ok(_))
            ==> ((r.0.stage matches AddTaskStage::AwaitOwner { title: t, description: d } && t@ == title@
            && d@ == description@) && (r.1 matches Action::FindUserByAuthKey(k) && k@ == auth_key@))),
        state.stage is AwaitConnection ==> (event matches Event::Connected(Err(_)) ==> (r.0.stage is Finished
            && replies(r.1, internal_error(state.request_id@)))),
        state.stage matches AddTaskStage::AwaitOwner { title, description } ==> (event matches Event::UserKeyRows(rows) ==> (
            (key_owner(rows) matches Some(u) ==> (r.0.stage is AwaitInsertion && (r.1 matches Action::InsertTask {
                owner: o,
                title: t,
                description: d,
                completed: c,
            } && o == u.id && t@ == title@ && !is_blank(t@) && d@ == description@ && !c)))
            && (key_owner(rows) is None ==> (r.0.stage is Finished && replies(r.1, key_lookup_failure(rows, state.request_id@)))))),
        state.stage is AwaitInsertion ==> (event matches Event::TaskRows(rows) ==> (r.0.stage is Finished
            && (first_task(rows) matches Some(t) ==> replies(r.1, ReplyView {
                status: Status::Created,
                body: BodyView::TaskId(state.request_id@, t.id),
            }))
            && (first_task(rows) is None ==> replies(r.1, internal_error(state.request_id@))))),
        !add_task_expects(state.stage, event) ==> (r.0.stage is Finished && replies(r.1, internal_error(state.request_id@))),
{
    let request_id = state.request_id;
    match (state.stage, event) {
        (AddTaskStage::AwaitConnection { auth_key, title, description }, Event::Connected(Ok(()))) => {
            (AddTask { request_id, stage: AddTaskStage::AwaitOwner { title, description } }, Action::FindUserByAuthKey(auth_key))
        },
        (AddTaskStage::AwaitOwner { title, description }, Event::UserKeyRows(rows)) => {
            match owner_of_key(rows, &request_id) {
                Ok(user) => (
                    AddTask { request_id, stage: AddTaskStage::AwaitInsertion },
                    Action::InsertTask {
                        owner: *user.ref_id(),
                        title: title.into_string(),
                        description: description.into_string(),
                        completed: false,
                    },
                ),
                Err(reply) => (AddTask { request_id, stage: AddTaskStage::Finished }, Action::Respond(reply)),
            }
        },
        (AddTaskStage::AwaitInsertion, Event::TaskRows(rows)) => {
            let reply = match rows {
                Ok(v) => {
                    if v.len() > 0 {
                        HttpReply {
                            status: Status::Created,
                            body: ReplyBody::TaskId { request_id: request_id.clone(), task_id: *v[0].id() },
                        }
                    } else {
                        reply_with_id(Status::InternalServerError, &request_id)
                    }
                },
                Err(e) => error_response(ApplicationError::DieselError(e), &request_id),
            };
            (AddTask { request_id, stage: AddTaskStage::Finished }, Action::Respond(reply))
        },
        _ => {
            let reply = reply_with_id(Status::InternalServerError, &request_id);
            (AddTask { request_id, stage: AddTaskStage::Finished }, Action::Respond(reply))
        },
    }
}

/// The message with which an update that changes nothing is refused.
pub open spec fn nothing_to_update_message() -> Seq<char> {
    "At least one of completed, title and description must be given."@
}

/// The text of an optional title.
pub open spec fn title_text(title: Option<TaskTitle>) -> Option<Seq<char>> {
    match title {
        Some(t) => Some(t@),
        None => None,
    }
}

/// The text of an optional description.
pub open spec fn new_description_text(description: Option<TaskDescription>) -> Option<Seq<char>> {
    match description {
        Some(d) => Some(d@),
        None => None,
    }
}

/// The fields that an update asks to change.
pub struct TaskChanges {
    pub completed: Option<bool>,
    pub title: Option<TaskTitle>,
    pub description: Option<TaskDescription>,
}

impl TaskChanges {
    /// The update changes no field.
    pub open spec fn is_empty(&self) -> bool {
        self.completed is None && self.title is None && self.description is None
    }
}

/// Where an `update_task_by_id` request stands.
pub enum UpdateTaskStage {
    AwaitConnection { auth_key: String, id: i32, changes: TaskChanges },
    AwaitOwner { id: i32, changes: TaskChanges },
    AwaitTask { owner: i32, changes: TaskChanges },
    AwaitUpdate,
    Finished,
}

/// An `update_task_by_id` request under way.
pub struct UpdateTask {
    pub request_id: String,
    pub stage: UpdateTaskStage,
}

/// The stages at which `update_task_by_id` waits for `event`.
pub open spec fn update_task_expects(stage: UpdateTaskStage, event: Event) -> bool {
    ||| stage is AwaitConnection && event is Connected
    ||| stage is AwaitOwner && event is UserKeyRows
    ||| stage is AwaitTask && event is TaskRows
    ||| stage is AwaitUpdate && event is Executed
}

/// Changes one or more of the task's fields: the start of the request. A
/// blank new title is refused with 400 and its message before any outside
/// work; otherwise it asks for a database connection.
pub fn update_task_by_id(
    id: i32,
    auth_key: String,
    completed: Option<bool>,
    title: Option<String>,
    description: Option<String>,
) -> (r: (UpdateTask, Action))
    ensures
        r.0.request_id@.len() == 36,
        title matches Some(t) && is_blank(t@) ==> (r.0.stage is Finished && replies(r.1, bad_request(r.0.request_id@, blank_title_message()))),
        !(title matches Some(t) && is_blank(t@)) ==> (r.1 is Connect && (r.0.stage matches UpdateTaskStage::AwaitConnection {
            auth_key: k,
            id: i,
            changes: c,
        } && k@ == auth_key@ && i == id && c.completed == completed && title_text(c.title) == opt_text(title)
            && new_description_text(c.description) == opt_text(description))),
{
    let request_id = new_request_id();
    let title = match title {
        Some(t) => match TaskTitle::new(t) {
            Ok(t) => Some(t),
            Err(message) => {
                let reply = error_response(ApplicationError::InvalidData(message), &request_id);
                return (UpdateTask { request_id, stage: UpdateTaskStage::Finished }, Action::Respond(reply));
            },
        },
        None => None,
    };
    let description = match description {
        Some(d) => Some(TaskDescription::new(d)),
        None => None,
    };
    let changes = TaskChanges { completed, title, description };
    (UpdateTask { request_id, stage: UpdateTaskStage::AwaitConnection { auth_key, id, changes } }, Action::Connect)
}

/// The next step of an `update_task_by_id` request: it looks up the key's
/// user, refuses an update that changes nothing, loads the task, and changes
/// it only when that user owns it; any other user gets 401.
pub fn update_task_by_id_step(state: UpdateTask, event: Event) -> (r: (UpdateTask, Action))
    ensures
        r.0.request_id@ == state.request_id@,
        state.stage matches UpdateTaskStage::AwaitConnection { auth_key, id, changes } ==> (event matches Event::Connected(Ok(_))
            ==> ((r.0.stage matches UpdateTaskStage::AwaitOwner { id: i, changes: c } && i == id && c == changes)
            && (r.1 matches Action::FindUserByAuthKey(k) && k@ == auth_key@))),
        state.stage is AwaitConnection ==> (event matches Event::Connected(Err(_)) ==> (r.0.stage is Finished
            && replies(r.1, internal_error(state.request_id@)))),
        state.stage matches UpdateTaskStage::AwaitOwner { id, changes } ==> (event matches Event::UserKeyRows(rows) ==> (
            (key_owner(rows) matches Some(u) ==> (changes.is_empty() ==> (r.0.stage is Finished
                && replies(r.1, bad_request(state.request_id@, nothing_to_update_message())))))
            && (key_owner(rows) matches Some(u) ==> (!changes.is_empty() ==> ((r.0.stage matches UpdateTaskStage::AwaitTask {
                owner: o,
                changes: c,
            } && o == u.id && c == changes) && r.1 == Action::FindTask(id))))
            && (key_owner(rows) is None ==> (r.0.stage is Finished && replies(r.1, key_lookup_failure(rows, state.request_id@)))))),
        state.stage matches UpdateTaskStage::AwaitTask { owner, changes } ==> (event matches Event::TaskRows(rows) ==> (
            (first_task(rows) matches Some(t) ==> (t.owner != owner ==> (r.0.stage is Finished
                && replies(r.1, id_reply(Status::Unauthorized, state.request_id@)))))
            && (first_task(rows) matches Some(t) ==> (t.owner == owner ==> (r.0.stage is AwaitUpdate
                && (r.1 matches Action::UpdateTask { id: i, completed: c, title: ti, description: d } && i == t.id
                && c == changes.completed && opt_text(ti) == title_text(changes.title)
                && (ti matches Some(x) ==> !is_blank(x@))
                && opt_text(d) == new_description_text(changes.description)))))
            && (first_task(rows) is None ==> (r.0.stage is Finished && replies(r.1, task_lookup_failure(rows, state.request_id@)))))),
        state.stage is AwaitUpdate ==> (event matches Event::Executed(Ok(_)) ==> (r.0.stage is Finished
            && replies(r.1, id_reply(Status::Success, state.request_id@)))),
        state.stage is AwaitUpdate ==> (event matches Event::Executed(Err(_)) ==> (r.0.stage is Finished
            && replies(r.1, internal_error(state.request_id@)))),
        !update_task_expects(state.stage, event) ==> (r.0.stage is Finished && replies(r.1, internal_error(state.request_id@))),
{
    let request_id = state.request_id;
    match (state.stage, event) {
        (UpdateTaskStage::AwaitConnection { auth_key, id, changes }, Event::Connected(Ok(()))) => {
            (UpdateTask { request_id, stage: UpdateTaskStage::AwaitOwner { id, changes } }, Action::FindUserByAuthKey(auth_key))
        },
        (UpdateTaskStage::AwaitOwner { id, changes }, Event::UserKeyRows(rows)) => {
            match owner_of_key(rows, &request_id) {
                Ok(user) => {
                    if changes.completed.is_none() && changes.title.is_none() && changes.description.is_none() {
                        let message = String::from_str("At least one of completed, title and description must be given.");
                        proof {
                            reveal_strlit("At least one of completed, title and description must be given.");
                        }
                        let reply = error_response(ApplicationError::InvalidData(message), &request_id);
                        (UpdateTask { request_id, stage: UpdateTaskStage::Finished }, Action::Respond(reply))
                    } else {
                        let owner = *user.ref_id();
                        (UpdateTask { request_id, stage: UpdateTaskStage::AwaitTask { owner, changes } }, Action::FindTask(id))
                    }
                },
                Err(reply) => (UpdateTask { request_id, stage: UpdateTaskStage::Finished }, Action::Respond(reply)),
            }
        },
        (UpdateTaskStage::AwaitTask { owner, changes }, Event::TaskRows(rows)) => {
            match found_task(rows, &request_id) {
                Ok(task) => {
                    if *task.owner_id() == owner {
                        let title = match changes.title {
                            Some(t) => Some(t.into_string()),
                            None => None,
                        };
                        let description = match changes.description {
                            Some(d) => Some(d.into_string()),
                            None => None,
                        };
                        (
                            UpdateTask { request_id, stage: UpdateTaskStage::AwaitUpdate },
                            Action::UpdateTask { id: *task.id(), completed: changes.completed, title, description },
                        )
                    } else {
                        let reply = error_response(ApplicationError::Unauthorized, &request_id);
                        (UpdateTask { request_id, stage: UpdateTaskStage::Finished }, Action::Respond(reply))
                    }
                },
                Err(reply) => (UpdateTask { request_id, stage: UpdateTaskStage::Finished }, Action::Respond(reply)),
            }
        },
        (UpdateTaskStage::AwaitUpdate, Event::Executed(result)) => {
            let reply = match result {
                Ok(_) => reply_with_id(Status::Success, &request_id),
                Err(m) => error_response(ApplicationError::QueryFailed(m), &request_id),
            };
            (UpdateTask { request_id, stage: UpdateTaskStage::Finished }, Action::Respond(reply))
        },
        _ => {
            let reply = reply_with_id(Status::InternalServerError, &request_id);
            (UpdateTask { request_id, stage: UpdateTaskStage::Finished }, Action::Respond(reply))
        },
    }
}

/// The user that a lookup by name found: the first row.
pub open spec fn first_user(rows: Result<Vec<User>, DbError>) -> Option<UserView> {
    match rows {
        Ok(v) => if v@.len() > 0 {
            Some(v@[0]@)
        } else {
            None
        },
        Err(_) => None,
    }
}

/// How a password fares against a stored password hash.
#[derive(Debug)]
pub enum PasswordCheck {
    /// The stored text is no PHC string.
    Malformed,
    /// Argon2 does not verify the password against it.
    Rejected,
    /// Argon2 verifies the password against it.
    Accepted,
}

/// How `password` fares against the stored PHC string `phc`.
pub open spec fn password_check(password: Seq<char>, phc: Seq<char>) -> PasswordCheck {
    if !phc_parses(phc) {
        PasswordCheck::Malformed
    } else if argon2_accepts(password, phc) {
        PasswordCheck::Accepted
    } else {
        PasswordCheck::Rejected
    }
}

/// `phc` is a password hash that verifies `password`: what registration
/// stores for the password it was given.
pub open spec fn stored_hash_matches(password: Seq<char>, phc: Seq<char>) -> bool {
    phc_parses(phc) && argon2_accepts(password, phc)
}

/// Where a `login` request stands.
pub enum LoginStage {
    AwaitConnection { username: Username, password: CleartextPassword },
    AwaitUser { password: CleartextPassword },
    AwaitKeyCheck { user_id: i32, key: String },
    AwaitKeyStored { key: String },
    Finished,
}

/// A `login` request under way.
pub struct Login {
    pub request_id: String,
    pub stage: LoginStage,
}

/// The stages at which `login` waits for `event`.
pub open spec fn login_expects(stage: LoginStage, event: Event) -> bool {
    ||| stage is AwaitConnection && event is Connected
    ||| stage is AwaitUser && event is UserRows
    ||| stage is AwaitKeyCheck && event is UserKeyRows
    ||| stage is AwaitKeyStored && event is Executed
}

/// Gives a new auth key to the user: the start of the request. A blank
/// username is refused with 400 and its message before any outside work;
/// otherwise it asks for a database connection.
pub fn login(username: String, password: String) -> (r: (Login, Action))
    ensures
        r.0.request_id@.len() == 36,
        is_blank(username@) ==> (r.0.stage is Finished && replies(r.1, bad_request(r.0.request_id@, blank_username_message()))),
        !is_blank(username@) ==> (r.1 is Connect && (r.0.stage matches LoginStage::AwaitConnection {
            username: u,
            password: p,
        } && u@ == username@ && p@ == password@)),
{
    let request_id = new_request_id();
    match Username::new(username) {
        Ok(username) => {
            let password = CleartextPassword::new(password);
            (Login { request_id, stage: LoginStage::AwaitConnection { username, password } }, Action::Connect)
        },
        Err(message) => {
            let reply = error_response(ApplicationError::InvalidData(message), &request_id);
            (Login { request_id, stage: LoginStage::Finished }, Action::Respond(reply))
        },
    }
}

/// Checks a password against the stored PHC string of a user.
fn check_password(password: &CleartextPassword, user: &User) -> (r: PasswordCheck)
    ensures
        r == password_check(password@, user@.password),
{
    match parse_phc(user.ref_password()) {
        Some(phc) => {
            if verify_password(password.text(), &phc) {
                PasswordCheck::Accepted
            } else {
                PasswordCheck::Rejected
            }
        },
        None => PasswordCheck::Malformed,
    }
}

/// The next step of a `login` request: it loads the user of that name and
/// checks the password against the stored hash; a name that no user has and
/// a wrong password get 401. On a match it draws a random key and looks it
/// up, drawing again while the key is already taken; it stores an unused
/// key for the user, and answers 200 with it.
pub fn login_step(state: Login, event: Event) -> (r: (Login, Action))
    ensures
        r.0.request_id@ == state.request_id@,
        state.stage matches LoginStage::AwaitConnection { username, password } ==> (event matches Event::Connected(Ok(_))
            ==> ((r.0.stage matches LoginStage::AwaitUser { password: p } && p@ == password@)
            && (r.1 matches Action::FindUsersByName(n) && n@ == username@ && !is_blank(n@)))),
        state.stage is AwaitConnection ==> (event matches Event::Connected(Err(_)) ==> (r.0.stage is Finished
            && replies(r.1, internal_error(state.request_id@)))),
        state.stage matches LoginStage::AwaitUser { password } ==> (event matches Event::UserRows(rows) ==> (
            (rows is Err ==> (r.0.stage is Finished && replies(r.1, internal_error(state.request_id@))))
            && (rows is Ok && first_user(rows) is None ==> (r.0.stage is Finished
                && replies(r.1, id_reply(Status::Unauthorized, state.request_id@))))
            && (first_user(rows) matches Some(u) ==> (password_check(password@, u.password) is Malformed
                ==> (r.0.stage is Finished && replies(r.1, internal_error(state.request_id@)))))
            && (first_user(rows) matches Some(u) ==> (password_check(password@, u.password) is Rejected
                ==> (r.0.stage is Finished && replies(r.1, id_reply(Status::Unauthorized, state.request_id@)))))
            && (first_user(rows) matches Some(u) ==> (password_check(password@, u.password) is Accepted
                ==> ((r.0.stage matches LoginStage::AwaitKeyCheck { user_id, key } && user_id == u.id
                && key@.len() == 36) && (r.1 matches Action::FindUserByAuthKey(k)
                && r.0.stage->AwaitKeyCheck_key@ == k@)))))),
        state.stage matches LoginStage::AwaitKeyCheck { user_id, key } ==> (event matches Event::UserKeyRows(rows) ==> (
            (rows matches Ok(v) && v@.len() == 0 ==> ((r.0.stage matches LoginStage::AwaitKeyStored { key: s } && s@ == key@)
                && (r.1 matches Action::InsertAuthKey { user_id: i, key: k } && i == user_id && k@ == key@)))
            && (rows matches Ok(v) && v@.len() > 0 ==> ((r.0.stage matches LoginStage::AwaitKeyCheck { user_id: i, key: n }
                && i == user_id && n@.len() == 36) && (r.1 matches Action::FindUserByAuthKey(k)
                && r.0.stage->AwaitKeyCheck_key@ == k@)))
            && (rows is Err ==> (r.0.stage is Finished && replies(r.1, internal_error(state.request_id@)))))),
        state.stage matches LoginStage::AwaitKeyStored { key } ==> (event matches Event::Executed(Ok(_)) ==> (r.0.stage is Finished
            && replies(r.1, ReplyView { status: Status::Success, body: BodyView::AuthKey(key@) }))),
        state.stage is AwaitKeyStored ==> (event matches Event::Executed(Err(_)) ==> (r.0.stage is Finished
            && replies(r.1, internal_error(state.request_id@)))),
        !login_expects(state.stage, event) ==> (r.0.stage is Finished && replies(r.1, internal_error(state.request_id@))),
{
    let request_id = state.request_id;
    match (state.stage, event) {
        (LoginStage::AwaitConnection { username, password }, Event::Connected(Ok(()))) => {
            let name = username.text().clone();
            (Login { request_id, stage: LoginStage::AwaitUser { password } }, Action::FindUsersByName(name))
        },
        (LoginStage::AwaitUser { password }, Event::UserRows(rows)) => {
            match rows {
                Ok(v) => {
                    if v.len() == 0 {
                        let reply = error_response(ApplicationError::Unauthorized, &request_id);
                        (Login { request_id, stage: LoginStage::Finished }, Action::Respond(reply))
                    } else {
                        let user = &v[0];
                        match check_password(&password, user) {
                            PasswordCheck::Accepted => {
                                let key = new_uuid();
                                let user_id = *user.ref_id();
                                let probe = key.clone();
                                (
                                    Login { request_id, stage: LoginStage::AwaitKeyCheck { user_id, key } },
                                    Action::FindUserByAuthKey(probe),
                                )
                            },
                            PasswordCheck::Rejected => {
                                let reply = error_response(ApplicationError::InvalidPassword, &request_id);
                                (Login { request_id, stage: LoginStage::Finished }, Action::Respond(reply))
                            },
                            PasswordCheck::Malformed => {
                                let reply = reply_with_id(Status::InternalServerError, &request_id);
                                (Login { request_id, stage: LoginStage::Finished }, Action::Respond(reply))
                            },
                        }
                    }
                },
                Err(e) => {
                    let reply = error_response(ApplicationError::DieselError(e), &request_id);
                    (Login { request_id, stage: LoginStage::Finished }, Action::Respond(reply))
                },
            }
        },
        (LoginStage::AwaitKeyCheck { user_id, key }, Event::UserKeyRows(rows)) => {
            match rows {
                Ok(v) => {
                    if v.len() == 0 {
                        let stored = key.clone();
                        (
                            Login { request_id, stage: LoginStage::AwaitKeyStored { key } },
                            Action::InsertAuthKey { user_id, key: stored },
                        )
                    } else {
                        let fresh = new_uuid();
                        let probe = fresh.clone();
                        (
                            Login { request_id, stage: LoginStage::AwaitKeyCheck { user_id, key: fresh } },
                            Action::FindUserByAuthKey(probe),
                        )
                    }
                },
                Err(e) => {
                    let reply = error_response(ApplicationError::DieselError(e), &request_id);
                    (Login { request_id, stage: LoginStage::Finished }, Action::Respond(reply))
                },
            }
        },
        (LoginStage::AwaitKeyStored { key }, Event::Executed(result)) => {
            let reply = match result {
                Ok(_) => HttpReply { status: Status::Success, body: ReplyBody::AuthKey(key) },
                Err(m) => error_response(ApplicationError::QueryFailed(m), &request_id),
            };
            (Login { request_id, stage: LoginStage::Finished }, Action::Respond(reply))
        },
        _ => {
            let reply = reply_with_id(Status::InternalServerError, &request_id);
            (Login { request_id, stage: LoginStage::Finished }, Action::Respond(reply))
        },
    }
}

/// Where a `register_account` request stands.
pub enum RegisterStage {
    AwaitConnection { username: Username, password_hash: String },
    AwaitLookup { username: Username, password_hash: String },
    AwaitInsertion,
    Finished,
}

/// A `register_account` request under way.
pub struct Register {
    pub request_id: String,
    pub stage: RegisterStage,
}

/// The stages at which `register_account` waits for `event`.
pub open spec fn register_expects(stage: RegisterStage, event: Event) -> bool {
    ||| stage is AwaitConnection && event is Connected
    ||| stage is AwaitLookup && event is UserRows
    ||| stage is AwaitInsertion && event is Executed
}

/// The stored form of a password: a PHC string of Argon2's default
/// configuration, written with `salt`.
pub open spec fn phc_with_salt(phc: Seq<char>, salt: Seq<char>) -> bool {
    &&& phc.len() == default_phc_prefix().len() + salt.len() + 44
    &&& phc.take(default_phc_prefix().len() as int) == default_phc_prefix()
    &&& phc.subrange(default_phc_prefix().len() as int, (default_phc_prefix().len() + salt.len()) as int) == salt
    &&& phc[(default_phc_prefix().len() + salt.len()) as int] == '$'
}

/// Create an account with the given account info, hashing the password with
/// the given B64 salt: the start of the request. A blank username is refused
/// with 400 before any outside work. Where Argon2 hashes the password with
/// the salt, it asks for a database connection, carrying that hash;
/// otherwise it answers 500.
pub fn register_account_with_salt(username: String, password: String, salt: String) -> (r: (Register, Action))
    ensures
        r.0.request_id@.len() == 36,
        is_blank(username@) ==> (r.0.stage is Finished && replies(r.1, id_reply(Status::BadRequest, r.0.request_id@))),
        !is_blank(username@) && argon2_hash(password@, salt@) is None ==> (r.0.stage is Finished
            && replies(r.1, internal_error(r.0.request_id@))),
        !is_blank(username@) && argon2_hash(password@, salt@) is Some ==> (r.1 is Connect
            && (r.0.stage matches RegisterStage::AwaitConnection { username: u, password_hash: h }
            && u@ == username@ && argon2_hash(password@, salt@) == Some(h@)
            && stored_hash_matches(password@, h@) && phc_with_salt(h@, salt@))),
{
    let request_id = new_request_id();
    let username = match Username::new(username) {
        Ok(u) => u,
        Err(_) => {
            let reply = reply_with_id(Status::BadRequest, &request_id);
            return (Register { request_id, stage: RegisterStage::Finished }, Action::Respond(reply));
        },
    };
    let password = CleartextPassword::new(password);
    match hash_password(password.text(), &salt) {
        Ok(password_hash) => (
            Register { request_id, stage: RegisterStage::AwaitConnection { username, password_hash } },
            Action::Connect,
        ),
        Err(_) => {
            let reply = reply_with_id(Status::InternalServerError, &request_id);
            (Register { request_id, stage: RegisterStage::Finished }, Action::Respond(reply))
        },
    }
}

/// Create an account with the given account info: the start of the request.
/// A blank username is refused with 400 before any outside work. The
/// password is hashed with Argon2 and a fresh random salt of 22 characters,
/// and the request asks for a database connection, carrying a hash that
/// verifies the password. Only a password of 2^30 or more characters may
/// fail to hash, which answers 500.
pub fn register_account(username: String, password: String) -> (r: (Register, Action))
    ensures
        r.0.request_id@.len() == 36,
        is_blank(username@) ==> (r.0.stage is Finished && replies(r.1, id_reply(Status::BadRequest, r.0.request_id@))),
        !is_blank(username@) && password@.len() <= 0x3FFF_FFFF ==> (r.1 is Connect),
        !is_blank(username@) ==> (r.1 is Connect || (r.0.stage is Finished && replies(r.1, internal_error(r.0.request_id@)))),
        !is_blank(username@) && r.1 is Connect ==> (r.0.stage matches RegisterStage::AwaitConnection {
            username: u,
            password_hash: h,
        } && u@ == username@ && stored_hash_matches(password@, h@)
            && exists|salt: Seq<char>| salt.len() == 22 && argon2_hash(password@, salt) == Some(h@)
            && phc_with_salt(h@, salt) && (h@ == password@ ==> phc_with_salt(password@, salt))),
{
    let salt = generate_salt();
    proof {
        if password@.len() <= 0x3FFF_FFFF {
            assert(argon2_hash(password@, salt@) is Some);
        }
    }
    register_account_with_salt(username, password, salt)
}

/// The next step of a `register_account` request: it looks up the name,
/// refuses a taken one with 409, and otherwise inserts the user with the
/// hash and answers 200 (HTTP OK) with no body.
pub fn register_account_step(state: Register, event: Event) -> (r: (Register, Action))
    ensures
        r.0.request_id@ == state.request_id@,
        state.stage matches RegisterStage::AwaitConnection { username, password_hash } ==> (event matches Event::Connected(Ok(_))
            ==> ((r.0.stage matches RegisterStage::AwaitLookup { username: u, password_hash: h } && u@ == username@
            && h@ == password_hash@) && (r.1 matches Action::FindUsersByName(n) && n@ == username@ && !is_blank(n@)))),
        state.stage is AwaitConnection ==> (event matches Event::Connected(Err(_)) ==> (r.0.stage is Finished
            && replies(r.1, internal_error(state.request_id@)))),
        state.stage matches RegisterStage::AwaitLookup { username, password_hash } ==> (event matches Event::UserRows(rows) ==> (
            (rows matches Ok(v) && v@.len() > 0 ==> (r.0.stage is Finished && replies(r.1, id_reply(Status::Conflict, state.request_id@))))
            && (rows matches Ok(v) && v@.len() == 0 ==> (r.0.stage is AwaitInsertion && (r.1 matches Action::InsertUser {
                username: n,
                password_hash: h,
            } && n@ == username@ && !is_blank(n@) && h@ == password_hash@)))
            && (rows is Err ==> (r.0.stage is Finished && replies(r.1, internal_error(state.request_id@)))))),
        state.stage is AwaitInsertion ==> (event matches Event::Executed(Ok(_)) ==> (r.0.stage is Finished
            && replies(r.1, ReplyView { status: Status::Success, body: BodyView::Empty }))),
        state.stage is AwaitInsertion ==> (event matches Event::Executed(Err(_)) ==> (r.0.stage is Finished
            && replies(r.1, internal_error(state.request_id@)))),
        !register_expects(state.stage, event) ==> (r.0.stage is Finished && replies(r.1, internal_error(state.request_id@))),
{
    let request_id = state.request_id;
    match (state.stage, event) {
        (RegisterStage::AwaitConnection { username, password_hash }, Event::Connected(Ok(()))) => {
            let name = username.text().clone();
            (
                Register { request_id, stage: RegisterStage::AwaitLookup { username, password_hash } },
                Action::FindUsersByName(name),
            )
        },
        (RegisterStage::AwaitLookup { username, password_hash }, Event::UserRows(rows)) => {
            match add_user(user_exists(rows)) {
                AddUserNext::Insert => {
                    let name = username.text().clone();
                    (
                        Register { request_id, stage: RegisterStage::AwaitInsertion },
                        Action::InsertUser { username: name, password_hash },
                    )
                },
                AddUserNext::Done(outcome) => {
                    let reply = match outcome {
                        Ok(()) => empty_reply(Status::Success),
                        Err(e) => error_response(ApplicationError::from(e), &request_id),
                    };
                    (Register { request_id, stage: RegisterStage::Finished }, Action::Respond(reply))
                },
            }
        },
        (RegisterStage::AwaitInsertion, Event::Executed(result)) => {
            let reply = match add_user_inserted(result) {
                Ok(()) => empty_reply(Status::Success),
                Err(e) => error_response(ApplicationError::from(e), &request_id),
            };
            (Register { request_id, stage: RegisterStage::Finished }, Action::Respond(reply))
        },
        _ => {
            let reply = reply_with_id(Status::InternalServerError, &request_id);
            (Register { request_id, stage: RegisterStage::Finished }, Action::Respond(reply))
        },
    }
}

/// The hash that registration stores for a password lets that same
/// password log in: login finds it well-formed and accepts the password.
pub proof fn law_registered_password_is_accepted(password: Seq<char>, phc: Seq<char>)
    requires
        stored_hash_matches(password, phc),
    ensures
        password_check(password, phc) is Accepted,
{
}

/// Every task that a listing keeps belongs to the owner it was made for,
/// and every task of that owner is kept.
pub proof fn law_listed_tasks_are_owned(tasks: Seq<TaskView>, owner: i32)
    ensures
        forall|i: int| 0 <= i < owned_by(tasks, owner).len() ==> (#[trigger] owned_by(tasks, owner)[i]).owner == owner,
        forall|i: int| 0 <= i < tasks.len() && (#[trigger] tasks[i]).owner == owner ==> owned_by(tasks, owner).contains(tasks[i]),
{
    let pred = |t: TaskView| t.owner == owner;
    assert forall|i: int| 0 <= i < owned_by(tasks, owner).len() implies (#[trigger] owned_by(tasks, owner)[i]).owner == owner by {
        tasks.lemma_filter_pred(pred, i);
    }
    assert forall|i: int| 0 <= i < tasks.len() && (#[trigger] tasks[i]).owner == owner implies owned_by(tasks, owner).contains(tasks[i]) by {
        tasks.lemma_filter_contains(pred, i);
    }
}

/// A password is accepted exactly when the stored text is a PHC string and
/// Argon2 verifies the password against it; it is rejected exactly when the
/// text parses but Argon2 does not verify it; a text that does not parse is
/// malformed, whatever the password.
pub proof fn law_password_check_follows_argon2(password: Seq<char>, phc: Seq<char>)
    ensures
        password_check(password, phc) is Accepted <==> (phc_parses(phc) && argon2_accepts(password, phc)),
        password_check(password, phc) is Rejected <==> (phc_parses(phc) && !argon2_accepts(password, phc)),
        password_check(password, phc) is Malformed <==> !phc_parses(phc),
{
}

/// An update is empty exactly when it gives no field: any given completion
/// flag, title or description makes it an update to carry out.
pub proof fn law_changes_empty_iff_no_field(changes: TaskChanges)
    ensures
        changes.is_empty() <==> (changes.completed is None && changes.title is None && changes.description is None),
        changes.completed is Some ==> !changes.is_empty(),
        changes.title is Some ==> !changes.is_empty(),
        changes.description is Some ==> !changes.is_empty(),
{
}

/// A listing of no tasks is empty, and a task added at the end of a table
/// is listed at the end exactly when the owner owns it: the listing keeps
/// the owner's tasks, each once, in the table's order.
pub proof fn law_listing_grows_with_owned_tasks(tasks: Seq<TaskView>, task: TaskView, owner: i32)
    ensures
        owned_by(Seq::empty(), owner) == Seq::<TaskView>::empty(),
        task.owner == owner ==> owned_by(tasks.push(task), owner) == owned_by(tasks, owner).push(task),
        task.owner != owner ==> owned_by(tasks.push(task), owner) == owned_by(tasks, owner),
        owned_by(tasks, owner).len() <= tasks.len(),
{
    reveal(Seq::filter);
    assert(tasks.push(task).drop_last() =~= tasks);
    assert(tasks.push(task).last() == task);
    tasks.lemma_filter_len(|t: TaskView| t.owner == owner);
}

/// A task lookup finds exactly the first loaded row, unchanged, and finds
/// one exactly when a row was loaded.
pub proof fn law_found_task_is_first_row(rows: Result<Vec<Task>, DbError>)
    ensures
        rows matches Ok(v) ==> (first_task(rows) is Some <==> v@.len() > 0),
        rows matches Ok(v) ==> (v@.len() > 0 ==> first_task(rows) == Some(v@[0]@)),
        rows matches Ok(v) ==> (v@.len() > 0 ==> (first_task(rows) matches Some(t) && t.id == v@[0]@.id
            && t.owner == v@[0]@.owner && t.title == v@[0]@.title && t.description == v@[0]@.description
            && t.completed == v@[0]@.completed)),
        rows is Err ==> first_task(rows) is None,
{
}

} // verus!
