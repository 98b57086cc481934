use vstd::prelude::*;
use crate::database::{Task, TaskView};

verus! {

/// The HTTP statuses that the service answers with.
#[derive(Clone, Copy, Debug, PartialEq, Eq, Structural)]
pub enum Status {
    /// 200 OK
    Success,
    Created,
    BadRequest,
    Unauthorized,
    Conflict,
    InternalServerError,
}

impl Status {
    /// The numeric status code.
    pub open spec fn spec_code(self) -> u16 {
        match self {
            Status::Success => 200,
            Status::Created => 201,
            Status::BadRequest => 400,
            Status::Unauthorized => 401,
            Status::Conflict => 409,
            Status::InternalServerError => 500,
        }
    }

    /// A 2xx status.
    pub open spec fn is_success(self) -> bool {
        200 <= self.spec_code() < 300
    }

    /// A 4xx status.
    pub open spec fn is_client_error(self) -> bool {
        400 <= self.spec_code() < 500
    }

    /// The numeric status code.
    pub fn code(&self) -> (r: u16)
        ensures
            r == self.spec_code(),
    {
        match self {
            Status::Success => 200,
            Status::Created => 201,
            Status::BadRequest => 400,
            Status::Unauthorized => 401,
            Status::Conflict => 409,
            Status::InternalServerError => 500,
        }
    }
}

/// The JSON object that a reply carries, by the keys it has.
#[derive(Debug)]
pub enum ReplyBody {
    /// No body at all.
    Empty,
    /// `{"request_id": ..}`
    RequestId(String),
    /// `{"request_id": .., "message": ..}`
    Message { request_id: String, message: String },
    /// `{"request_id": .., "username": ..}`
    Username { request_id: String, username: String },
    /// `{"request_id": .., "task": ..}`
    Task { request_id: String, task: Task },
    /// `{"request_id": .., "task_id": ..}`
    TaskId { request_id: String, task_id: i32 },
    /// `{"request_id": .., "tasks": [..]}`
    Tasks { request_id: String, tasks: Vec<Task> },
    /// `{"auth_key": ..}`
    AuthKey(String),
}

/// The mathematical value of a `ReplyBody`.
pub enum BodyView {
    Empty,
    RequestId(Seq<char>),
    Message(Seq<char>, Seq<char>),
    Username(Seq<char>, Seq<char>),
    Task(Seq<char>, TaskView),
    TaskId(Seq<char>, i32),
    Tasks(Seq<char>, Seq<TaskView>),
    AuthKey(Seq<char>),
}

/// The views of a sequence of tasks.
pub open spec fn task_views(tasks: Seq<Task>) -> Seq<TaskView> {
    tasks.map_values(|t: Task| t@)
}

impl View for ReplyBody {
    type V = BodyView;

    open spec fn view(&self) -> BodyView {
        match self {
            ReplyBody::Empty => BodyView::Empty,
            ReplyBody::RequestId(id) => BodyView::RequestId(id@),
            ReplyBody::Message { request_id, message } => BodyView::Message(request_id@, message@),
            ReplyBody::Username { request_id, username } => BodyView::Username(
                request_id@,
                username@,
            ),
            ReplyBody::Task { request_id, task } => BodyView::Task(request_id@, task@),
            ReplyBody::TaskId { request_id, task_id } => BodyView::TaskId(request_id@, *task_id),
            ReplyBody::Tasks { request_id, tasks } => BodyView::Tasks(
                request_id@,
                task_views(tasks@),
            ),
            ReplyBody::AuthKey(key) => BodyView::AuthKey(key@),
        }
    }
}

/// A reply to an HTTP request: its status and its body.
#[derive(Debug)]
pub struct HttpReply {
    pub status: Status,
    pub body: ReplyBody,
}

/// The mathematical value of an `HttpReply`.
pub struct ReplyView {
    pub status: Status,
    pub body: BodyView,
}

impl View for HttpReply {
    type V = ReplyView;

    open spec fn view(&self) -> ReplyView {
        ReplyView { status: self.status, body: self.body@ }
    }
}

/// The reply whose body holds only the request's id.
pub open spec fn id_reply(status: Status, request_id: Seq<char>) -> ReplyView {
    ReplyView { status, body: BodyView::RequestId(request_id) }
}

/// A reply whose body holds only a copy of `request_id`.
pub fn reply_with_id(status: Status, request_id: &String) -> (r: HttpReply)
    ensures
        r@ == id_reply(status, request_id@),
{
    HttpReply { status, body: ReplyBody::RequestId(request_id.clone()) }
}

/// A reply with no body.
pub fn empty_reply(status: Status) -> (r: HttpReply)
    ensures
        r@ == (ReplyView { status, body: BodyView::Empty }),
{
    HttpReply { status, body: ReplyBody::Empty }
}

} // verus!
