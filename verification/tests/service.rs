use rust_todo::database::{ApplicationDatabaseError, DbError};
use rust_todo::http::{ReplyBody, Status};
use rust_todo::service::{auth_key_error, ApplicationError};

fn id_of(body: &ReplyBody) -> &str {
    match body {
        ReplyBody::RequestId(id) => id,
        other => panic!("unexpected body {other:?}"),
    }
}

#[test]
fn errors_map_to_their_statuses() {
    let rid = String::from("rid-1");
    let cases = vec![
        (ApplicationError::DieselError(DbError::NotFound), 500),
        (ApplicationError::InvalidAuthKey, 401),
        (ApplicationError::InvalidPassword, 401),
        (ApplicationError::QueryFailed(String::from("q")), 500),
        (ApplicationError::Unauthorized, 401),
        (ApplicationError::UserExists, 409),
    ];
    for (e, code) in cases {
        let reply = e.into_http_response(&rid);
        assert_eq!(reply.status.code(), code);
        assert_eq!(id_of(&reply.body), "rid-1");
    }
}

#[test]
fn invalid_data_carries_its_message() {
    let reply = ApplicationError::InvalidData(String::from("bad")).into_http_response(&String::from("r"));
    assert_eq!(reply.status, Status::BadRequest);
    match reply.body {
        ReplyBody::Message { request_id, message } => {
            assert_eq!(request_id, "r");
            assert_eq!(message, "bad");
        }
        other => panic!("unexpected body {other:?}"),
    }
}

#[test]
fn status_codes() {
    let all = [
        (Status::Success, 200),
        (Status::Created, 201),
        (Status::BadRequest, 400),
        (Status::Unauthorized, 401),
        (Status::Conflict, 409),
        (Status::InternalServerError, 500),
    ];
    for (s, c) in all {
        assert_eq!(s.code(), c);
    }
}

#[test]
fn unknown_auth_key_is_invalid() {
    assert!(matches!(auth_key_error(DbError::NotFound), ApplicationError::InvalidAuthKey));
    assert!(matches!(
        auth_key_error(DbError::Failed(String::from("x"))),
        ApplicationError::DieselError(DbError::Failed(_))
    ));
}

#[test]
fn database_errors_convert() {
    assert!(matches!(
        ApplicationError::from(ApplicationDatabaseError::UserExists),
        ApplicationError::UserExists
    ));
    assert!(matches!(
        ApplicationError::from(ApplicationDatabaseError::QueryFailed(String::from("m"))),
        ApplicationError::QueryFailed(_)
    ));
    assert!(matches!(
        ApplicationError::from(ApplicationDatabaseError::DieselError(DbError::NotFound)),
        ApplicationError::DieselError(DbError::NotFound)
    ));
}
