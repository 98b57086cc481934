use rust_todo::database::{
    add_user, add_user_inserted, auth_key_to_user, user_exists, AddUserNext,
    ApplicationDatabaseError, AuthKey, DbError, Task, User,
};

fn user(id: i32, name: &str) -> User {
    User::new(id, String::from(name), String::from("$argon2id$v=19$m=19456,t=2,p=1$c2FsdHNhbHQ$aGFzaA"))
}

#[test]
fn user_exists_counts_rows() {
    assert!(matches!(user_exists(Ok(vec![])), Ok(false)));
    assert!(matches!(user_exists(Ok(vec![user(1, "a")])), Ok(true)));
    assert!(matches!(user_exists(Ok(vec![user(1, "a"), user(2, "a")])), Ok(true)));
    match user_exists(Err(DbError::Failed(String::from("down")))) {
        Err(ApplicationDatabaseError::DieselError(DbError::Failed(m))) => assert_eq!(m, "down"),
        other => panic!("unexpected {other:?}"),
    }
}

#[test]
fn add_user_inserts_only_free_names() {
    assert!(matches!(add_user(Ok(false)), AddUserNext::Insert));
    assert!(matches!(add_user(Ok(true)), AddUserNext::Done(Err(ApplicationDatabaseError::UserExists))));
    assert!(matches!(
        add_user(Err(ApplicationDatabaseError::QueryFailed(String::from("x")))),
        AddUserNext::Done(Err(ApplicationDatabaseError::QueryFailed(_)))
    ));
}

#[test]
fn failed_insertion_is_query_failed() {
    assert!(matches!(add_user_inserted(Ok(1)), Ok(())));
    match add_user_inserted(Err(String::from("duplicate key"))) {
        Err(ApplicationDatabaseError::QueryFailed(m)) => assert_eq!(m, "duplicate key"),
        other => panic!("unexpected {other:?}"),
    }
}

#[test]
fn auth_key_to_user_takes_the_first_row() {
    assert!(matches!(auth_key_to_user(Ok(vec![])), Err(DbError::NotFound)));
    let rows = vec![
        (AuthKey::new(1, 7, String::from("k")), user(7, "first")),
        (AuthKey::new(2, 8, String::from("k")), user(8, "second")),
    ];
    match auth_key_to_user(Ok(rows)) {
        Ok(u) => {
            assert_eq!(*u.ref_id(), 7);
            assert_eq!(u.ref_username(), "first");
        }
        Err(e) => panic!("unexpected {e:?}"),
    }
    assert!(matches!(auth_key_to_user(Err(DbError::NotFound)), Err(DbError::NotFound)));
}

#[test]
fn rows_keep_their_columns() {
    let k = AuthKey::new(3, 4, String::from("key"));
    assert_eq!(k.user_id(), 4);
    assert_eq!(k.key(), "key");
    let t = Task::new(5, 6, String::from("title"), Some(String::from("d")), true);
    assert_eq!(*t.id(), 5);
    assert_eq!(*t.owner_id(), 6);
    assert_eq!(t.title(), "title");
    assert_eq!(t.description().as_deref(), Some("d"));
    assert!(t.completed());
    let c = t.clone();
    assert_eq!(c.title(), "title");
    let u = user(9, "name");
    assert_eq!(u.clone().ref_password(), u.ref_password());
}
