use vstd::prelude::*;
use crate::database::{ApplicationDatabaseError, DbError};
use crate::http::{BodyView, HttpReply, ReplyBody, ReplyView, Status, reply_with_id};

verus! {

/// Everything that can go wrong while serving a request, after its input
/// has been read.
#[derive(Debug)]
pub enum ApplicationError {
    DieselError(DbError),
    InvalidAuthKey,
    InvalidData(String),
    InvalidPassword,
    QueryFailed(String),
    Unauthorized,
    UserExists,
}

/// The status with which an error is answered.
pub open spec fn error_status(e: ApplicationError) -> Status {
    match e {
        ApplicationError::DieselError(_) => Status::InternalServerError,
        ApplicationError::InvalidAuthKey => Status::Unauthorized,
        ApplicationError::InvalidData(_) => Status::BadRequest,
        ApplicationError::InvalidPassword => Status::Unauthorized,
        ApplicationError::QueryFailed(_) => Status::InternalServerError,
        ApplicationError::Unauthorized => Status::Unauthorized,
        ApplicationError::UserExists => Status::Conflict,
    }
}

/// The reply to an error: its status, and a body with the request's id,
/// plus the message where the input was at fault.
pub open spec fn error_reply(e: ApplicationError, request_id: Seq<char>) -> ReplyView {
    match e {
        ApplicationError::InvalidData(message) => ReplyView {
            status: Status::BadRequest,
            body: BodyView::Message(request_id, message@),
        },
        _ => ReplyView { status: error_status(e), body: BodyView::RequestId(request_id) },
    }
}

impl ApplicationError {
    /// The reply that tells the client about this error.
    pub fn into_http_response(self, request_id: &String) -> (r: HttpReply)
        ensures
            r@ == error_reply(self, request_id@),
    {
        match self {
            ApplicationError::DieselError(_) => reply_with_id(Status::InternalServerError, request_id),
            ApplicationError::InvalidAuthKey => reply_with_id(Status::Unauthorized, request_id),
            ApplicationError::InvalidData(message) => HttpReply {
                status: Status::BadRequest,
                body: ReplyBody::Message { request_id: request_id.clone(), message },
            },
            ApplicationError::InvalidPassword => reply_with_id(Status::Unauthorized, request_id),
            ApplicationError::QueryFailed(_) => reply_with_id(Status::InternalServerError, request_id),
            ApplicationError::Unauthorized => reply_with_id(Status::Unauthorized, request_id),
            ApplicationError::UserExists => reply_with_id(Status::Conflict, request_id),
        }
    }
}

/// The error that a failed lookup of an auth key's user stands for: no such
/// key means the key is not valid.
pub fn auth_key_error(e: DbError) -> (r: ApplicationError)
    ensures
        e is NotFound ==> (r is InvalidAuthKey),
        e matches DbError::Failed(m) ==> (r matches ApplicationError::DieselError(DbError::Failed(n))
            && n@ == m@),
{
    match e {
        DbError::NotFound => ApplicationError::InvalidAuthKey,
        DbError::Failed(m) => ApplicationError::DieselError(DbError::Failed(m)),
    }
}

impl From<ApplicationDatabaseError> for ApplicationError {
    fn from(e: ApplicationDatabaseError) -> (r: ApplicationError) {
        match e {
            ApplicationDatabaseError::DieselError(d) => ApplicationError::DieselError(d),
            ApplicationDatabaseError::QueryFailed(m) => ApplicationError::QueryFailed(m),
            ApplicationDatabaseError::UserExists => ApplicationError::UserExists,
        }
    }
}

impl vstd::std_specs::convert::FromSpecImpl<ApplicationDatabaseError> for ApplicationError {
    open spec fn obeys_from_spec() -> bool {
        true
    }

    open spec fn from_spec(e: ApplicationDatabaseError) -> ApplicationError {
        match e {
            ApplicationDatabaseError::DieselError(d) => ApplicationError::DieselError(d),
            ApplicationDatabaseError::QueryFailed(m) => ApplicationError::QueryFailed(m),
            ApplicationDatabaseError::UserExists => ApplicationError::UserExists,
        }
    }
}

/// An error never looks like a success: its reply is a client error (4xx)
/// or a server error (500), and its body carries the request's id.
pub proof fn law_error_replies_fail(e: ApplicationError, request_id: Seq<char>)
    ensures
        error_reply(e, request_id).status.spec_code() >= 400,
        !error_reply(e, request_id).status.is_success(),
        error_reply(e, request_id).body matches BodyView::RequestId(id) ==> id == request_id,
        error_reply(e, request_id).body matches BodyView::Message(id, _) ==> id == request_id,
        error_reply(e, request_id).body is RequestId || error_reply(e, request_id).body is Message,
        error_reply(e, request_id).status.is_client_error() <==> !(e is DieselError || e is QueryFailed),
{
}

} // verus!
