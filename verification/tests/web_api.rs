use rust_todo::database::{AuthKey, DbError, Task, User};
use rust_todo::http::{HttpReply, ReplyBody, Status};
use rust_todo::web_api::{
    add_task, add_task_step, get_all_tasks, get_all_tasks_step, get_task_by_id, get_task_by_id_step,
    login, login_step, register_account_with_salt, logout, logout_step, register_account, register_account_step,
    update_task_by_id, update_task_by_id_step, whoami, whoami_step, Action, Event,
};

/// A database kept in memory, answering the actions of the handlers.
#[derive(Default)]
struct MemoryDb {
    users: Vec<(i32, String, String)>,
    keys: Vec<(i32, i32, String)>,
    tasks: Vec<(i32, i32, String, Option<String>, bool)>,
    next_id: i32,
    down: bool,
}

impl MemoryDb {
    fn fresh_id(&mut self) -> i32 {
        self.next_id += 1;
        self.next_id
    }

    fn task_row(t: &(i32, i32, String, Option<String>, bool)) -> Task {
        Task::new(t.0, t.1, t.2.clone(), t.3.clone(), t.4)
    }

    fn perform(&mut self, action: Action) -> Event {
        match action {
            Action::Connect => {
                if self.down {
                    Event::Connected(Err(String::from("connection refused")))
                } else {
                    Event::Connected(Ok(()))
                }
            }
            Action::FindUserByAuthKey(key) => {
                let rows = self
                    .keys
                    .iter()
                    .filter(|k| k.2 == key)
                    .map(|k| {
                        let u = self.users.iter().find(|u| u.0 == k.1).expect("dangling key");
                        (AuthKey::new(k.0, k.1, k.2.clone()), User::new(u.0, u.1.clone(), u.2.clone()))
                    })
                    .collect();
                Event::UserKeyRows(Ok(rows))
            }
            Action::FindUsersByName(name) => Event::UserRows(Ok(self
                .users
                .iter()
                .filter(|u| u.1 == name)
                .map(|u| User::new(u.0, u.1.clone(), u.2.clone()))
                .collect())),
            Action::FindTask(id) => {
                Event::TaskRows(Ok(self.tasks.iter().filter(|t| t.0 == id).map(Self::task_row).collect()))
            }
            Action::FindTasksOwnedBy(owner) => Event::TaskRows(Ok(self
                .tasks
                .iter()
                .filter(|t| t.1 == owner)
                .map(Self::task_row)
                .collect())),
            Action::InsertUser { username, password_hash } => {
                let id = self.fresh_id();
                self.users.push((id, username, password_hash));
                Event::Executed(Ok(1))
            }
            Action::InsertTask { owner, title, description, completed } => {
                let id = self.fresh_id();
                let row = (id, owner, title, Some(description), completed);
                let task = Self::task_row(&row);
                self.tasks.push(row);
                Event::TaskRows(Ok(vec![task]))
            }
            Action::UpdateTask { id, completed, title, description } => {
                let mut n = 0;
                for t in self.tasks.iter_mut().filter(|t| t.0 == id) {
                    if let Some(c) = completed {
                        t.4 = c;
                    }
                    if let Some(ti) = &title {
                        t.2 = ti.clone();
                    }
                    if let Some(d) = &description {
                        t.3 = Some(d.clone());
                    }
                    n += 1;
                }
                Event::Executed(Ok(n))
            }
            Action::InsertAuthKey { user_id, key } => {
                let id = self.fresh_id();
                self.keys.push((id, user_id, key));
                Event::Executed(Ok(1))
            }
            Action::DeleteAuthKey(key) => {
                let before = self.keys.len();
                self.keys.retain(|k| k.2 != key);
                Event::Executed(Ok(before - self.keys.len()))
            }
            Action::Respond(_) => panic!("a reply is no outside work"),
        }
    }
}

/// Runs a request to its reply against the database.
fn drive<S>(start: (S, Action), step: fn(S, Event) -> (S, Action), db: &mut MemoryDb) -> HttpReply {
    let (mut state, mut action) = start;
    loop {
        match action {
            Action::Respond(reply) => return reply,
            work => {
                let event = db.perform(work);
                let (s, a) = step(state, event);
                state = s;
                action = a;
            }
        }
    }
}

fn register(db: &mut MemoryDb, username: &str, password: &str) -> HttpReply {
    drive(register_account(String::from(username), String::from(password)), register_account_step, db)
}

fn log_in(db: &mut MemoryDb, username: &str, password: &str) -> HttpReply {
    drive(login(String::from(username), String::from(password)), login_step, db)
}

fn assert_success(reply: HttpReply, message: &str) -> HttpReply {
    assert!(reply.status.code() >= 200 && reply.status.code() < 300, "{message}: {reply:?}");
    reply
}

fn auth_key_of(reply: HttpReply) -> String {
    match reply.body {
        ReplyBody::AuthKey(key) => key,
        other => panic!("no auth key in {other:?}"),
    }
}

fn task_id_of(reply: HttpReply) -> i32 {
    match reply.body {
        ReplyBody::TaskId { task_id, .. } => task_id,
        other => panic!("no task id in {other:?}"),
    }
}

fn registered_and_logged_in(db: &mut MemoryDb, username: &str, password: &str) -> String {
    assert_success(register(db, username, password), "Unable to register account");
    auth_key_of(assert_success(log_in(db, username, password), "Could not login."))
}

fn new_task(db: &mut MemoryDb, auth_key: &str, title: &str, description: Option<&str>) -> HttpReply {
    drive(
        add_task(String::from(auth_key), String::from(title), description.map(String::from)),
        add_task_step,
        db,
    )
}

fn fetch_task(db: &mut MemoryDb, auth_key: &str, id: i32) -> HttpReply {
    drive(get_task_by_id(String::from(auth_key), id), get_task_by_id_step, db)
}

#[test]
fn is_alive() {
    let reply = is_alive_reply();
    assert_eq!(reply.status, Status::Success);
    assert!(matches!(reply.body, ReplyBody::Empty));
}

fn is_alive_reply() -> HttpReply {
    rust_todo::web_api::is_alive()
}

#[test]
fn regitering_account_is_successful() {
    let mut db = MemoryDb::default();
    let reply = register(&mut db, "register-account-is-successful-name", "register-account-is-successful-password");
    let reply = assert_success(reply, "Error status code");
    assert_eq!(reply.status, Status::Success);
    assert!(matches!(reply.body, ReplyBody::Empty));
    assert_eq!(db.users.len(), 1);
    assert_ne!(db.users[0].2, "register-account-is-successful-password");
    assert!(db.users[0].2.starts_with("$argon2id$v=19$m=19456,t=2,p=1$"));
    assert_eq!(db.users[0].2.len(), 31 + 22 + 44);
}

#[test]
fn duplicate_username_fails() {
    let mut db = MemoryDb::default();
    assert_success(register(&mut db, "duplicated-name", "duplicated-password"), "Failed to register the account once.");
    let reply = register(&mut db, "duplicated-name", "duplicated-password");
    assert_eq!(reply.status, Status::Conflict);
    assert_eq!(db.users.len(), 1);
}

#[test]
fn auth_key_is_recognized() {
    let mut db = MemoryDb::default();
    let username = "auth-key-registered-name";
    let auth_key = registered_and_logged_in(&mut db, username, "auth-key-registered-password");
    assert_eq!(auth_key.len(), 36);
    let reply = assert_success(drive(whoami(auth_key), whoami_step, &mut db), "Whoami request failed.");
    match reply.body {
        ReplyBody::Username { username: name, .. } => assert_eq!(name, username),
        other => panic!("unexpected {other:?}"),
    }
}

#[test]
fn invalid_password_fails() {
    let mut db = MemoryDb::default();
    assert_success(register(&mut db, "invalid-password-username", "invalid-password-password"), "Unable to register account");
    let reply = log_in(&mut db, "invalid-password-username", "not-the-correct-password");
    assert_eq!(reply.status, Status::Unauthorized);
    assert!(db.keys.is_empty());
}

#[test]
fn can_logout() {
    let mut db = MemoryDb::default();
    let auth_key = registered_and_logged_in(&mut db, "can-logout-username", "can-logout-password");
    assert_success(drive(logout(auth_key.clone()), logout_step, &mut db), "Unable to log out.");
    let reply = drive(whoami(auth_key), whoami_step, &mut db);
    assert_eq!(reply.status.code(), 401, "WhoAmI did not return client error.");
}

#[test]
fn can_add_task() {
    let mut db = MemoryDb::default();
    let auth_key = registered_and_logged_in(&mut db, "can-add-task-username", "can-add-task-password");
    let reply = assert_success(new_task(&mut db, &auth_key, "test title", Some("test description")), "Unable to add task.");
    assert_eq!(reply.status, Status::Created);
    assert_eq!(db.tasks.len(), 1);
    assert!(!db.tasks[0].4);
    assert_eq!(db.tasks[0].1, db.users[0].0);
}

#[test]
fn cannot_add_task_without_valid_auth_key() {
    let mut db = MemoryDb::default();
    let reply = new_task(&mut db, "this-is-not-a-valid-auth-key", "test title", Some("test description"));
    assert_eq!(reply.status, Status::Unauthorized);
    assert!(db.tasks.is_empty());
}

#[test]
fn can_get_task() {
    let mut db = MemoryDb::default();
    let auth_key = registered_and_logged_in(&mut db, "can-get-task-username", "can-get-task-password");
    let task_id = task_id_of(assert_success(
        new_task(&mut db, &auth_key, "test title", Some("test description")),
        "Unable to add task.",
    ));
    let reply = assert_success(fetch_task(&mut db, &auth_key, task_id), "Unable to get task.");
    match reply.body {
        ReplyBody::Task { task, .. } => {
            assert_eq!(*task.id(), task_id);
            assert_eq!(task.title(), "test title");
            assert_eq!(task.description().as_deref(), Some("test description"));
        }
        other => panic!("unexpected {other:?}"),
    }
}

#[test]
fn cannot_get_different_users_task() {
    let mut db = MemoryDb::default();
    let owner_key = registered_and_logged_in(
        &mut db,
        "cannot-get-different-users-task-owner-username",
        "cannot-get-different-users-task-owner-password",
    );
    let task_id = task_id_of(assert_success(
        new_task(&mut db, &owner_key, "test title", Some("test description")),
        "Unable to add task.",
    ));
    let other_key = registered_and_logged_in(
        &mut db,
        "cannot-get-different-users-task-non-owner-username",
        "cannot-get-different-users-task-non-owner-password",
    );
    let reply = fetch_task(&mut db, &other_key, task_id);
    assert!(reply.status.code() >= 400 && reply.status.code() < 500, "Getting task did not indicate client error.");
    assert_eq!(reply.status, Status::Unauthorized);
}

/// Registers, adds a task, updates it and reads it back.
fn update_task(username: &str, password: &str, completed: Option<bool>, title: Option<String>, description: Option<String>) -> Task {
    let mut db = MemoryDb::default();
    let auth_key = registered_and_logged_in(&mut db, username, password);
    let task_id = task_id_of(assert_success(
        new_task(&mut db, &auth_key, "original title", Some("original description")),
        "Unable to add task.",
    ));
    assert_success(
        drive(
            update_task_by_id(task_id, auth_key.clone(), completed, title, description),
            update_task_by_id_step,
            &mut db,
        ),
        "Unable to update task.",
    );
    let reply = assert_success(fetch_task(&mut db, &auth_key, task_id), "Unable to get task after creating.");
    match reply.body {
        ReplyBody::Task { task, .. } => task,
        other => panic!("unexpected {other:?}"),
    }
}

#[test]
fn title_is_updatable() {
    let updated_title = String::from("new title");
    let task = update_task("title-is-updateable-username", "title-is-updateable-password", None, Some(updated_title.clone()), None);
    assert_eq!(*task.title(), updated_title);
    assert_eq!(task.description().as_deref(), Some("original description"));
}

#[test]
fn description_is_updatable() {
    let updated_description = String::from("new description");
    let task = update_task(
        "description-is-updateable-username",
        "description-is-updateable-password",
        None,
        None,
        Some(updated_description.clone()),
    );
    assert_eq!(*task.description().as_ref().unwrap(), updated_description);
    assert_eq!(task.title(), "original title");
}

#[test]
fn completed_is_updatable() {
    let task = update_task("completed-is-updateable-username", "completed-is-updateable-password", Some(true), None, None);
    assert!(task.completed());
}

#[test]
fn can_get_all_tasks() {
    let mut db = MemoryDb::default();
    let auth_key = registered_and_logged_in(&mut db, "can-get-all-tasks-username", "can-get-all-tasks-password");
    assert_success(new_task(&mut db, &auth_key, "task 1", None), "Unable to add first task.");
    assert_success(new_task(&mut db, &auth_key, "task 2", None), "Unable to add second task.");
    let other_key = registered_and_logged_in(&mut db, "someone-else", "someone-else-password");
    assert_success(new_task(&mut db, &other_key, "not mine", None), "Unable to add third task.");
    let reply = assert_success(drive(get_all_tasks(auth_key), get_all_tasks_step, &mut db), "Could not get tasks!");
    match reply.body {
        ReplyBody::Tasks { tasks, .. } => {
            assert_eq!(tasks.len(), 2, "Expected 2 tasks, found {}", tasks.len());
            assert_eq!(tasks[0].title(), "task 1");
            assert_eq!(tasks[1].title(), "task 2");
            assert_eq!(tasks[0].description().as_deref(), Some(""));
        }
        other => panic!("unexpected {other:?}"),
    }
}

#[test]
fn blank_username_is_refused_before_the_database() {
    let mut db = MemoryDb::default();
    db.down = true;
    let reply = register(&mut db, "   ", "pw");
    assert_eq!(reply.status, Status::BadRequest);
    assert!(matches!(reply.body, ReplyBody::RequestId(_)));
    let reply = log_in(&mut db, "", "pw");
    assert_eq!(reply.status, Status::BadRequest);
    match reply.body {
        ReplyBody::Message { message, .. } => assert_eq!(message, "Username is empty or contains only whitespace."),
        other => panic!("unexpected {other:?}"),
    }
}

#[test]
fn blank_title_is_refused_by_the_handlers() {
    let mut db = MemoryDb::default();
    let reply = new_task(&mut db, "key", " ", None);
    assert_eq!(reply.status, Status::BadRequest);
    let reply = drive(update_task_by_id(1, String::from("key"), None, Some(String::from("\t")), None), update_task_by_id_step, &mut db);
    match reply.body {
        ReplyBody::Message { message, .. } => assert_eq!(message, "Title is empty or contains only whitespace."),
        other => panic!("unexpected {other:?}"),
    }
}

#[test]
fn update_without_fields_is_refused() {
    let mut db = MemoryDb::default();
    let auth_key = registered_and_logged_in(&mut db, "nothing-to-update", "pw");
    let task_id = task_id_of(new_task(&mut db, &auth_key, "t", None));
    let reply = drive(update_task_by_id(task_id, auth_key, None, None, None), update_task_by_id_step, &mut db);
    assert_eq!(reply.status, Status::BadRequest);
}

#[test]
fn cannot_update_different_users_task() {
    let mut db = MemoryDb::default();
    let owner_key = registered_and_logged_in(&mut db, "update-owner", "pw1");
    let task_id = task_id_of(new_task(&mut db, &owner_key, "t", None));
    let other_key = registered_and_logged_in(&mut db, "update-other", "pw2");
    let reply = drive(
        update_task_by_id(task_id, other_key, Some(true), None, None),
        update_task_by_id_step,
        &mut db,
    );
    assert_eq!(reply.status, Status::Unauthorized);
    assert!(!db.tasks[0].4);
}

#[test]
fn missing_task_is_bad_request() {
    let mut db = MemoryDb::default();
    let auth_key = registered_and_logged_in(&mut db, "missing-task", "pw");
    let reply = fetch_task(&mut db, &auth_key, 4242);
    assert_eq!(reply.status, Status::BadRequest);
}

#[test]
fn unknown_user_cannot_log_in() {
    let mut db = MemoryDb::default();
    let reply = log_in(&mut db, "nobody", "pw");
    assert_eq!(reply.status, Status::Unauthorized);
}

#[test]
fn malformed_stored_hash_is_server_error() {
    let mut db = MemoryDb::default();
    db.users.push((1, String::from("legacy"), String::from("not a phc string")));
    let reply = log_in(&mut db, "legacy", "pw");
    assert_eq!(reply.status, Status::InternalServerError);
}

#[test]
fn logout_of_unknown_key_is_unauthorized() {
    let mut db = MemoryDb::default();
    let reply = drive(logout(String::from("no-such-key")), logout_step, &mut db);
    assert_eq!(reply.status, Status::Unauthorized);
}

#[test]
fn database_down_is_server_error() {
    let mut db = MemoryDb::default();
    db.down = true;
    for reply in [
        register(&mut db, "a", "b"),
        log_in(&mut db, "a", "b"),
        drive(whoami(String::from("k")), whoami_step, &mut db),
        drive(logout(String::from("k")), logout_step, &mut db),
        drive(get_all_tasks(String::from("k")), get_all_tasks_step, &mut db),
        fetch_task(&mut db, "k", 1),
        new_task(&mut db, "k", "t", None),
    ] {
        assert_eq!(reply.status, Status::InternalServerError);
        match reply.body {
            ReplyBody::RequestId(id) => assert_eq!(id.len(), 36),
            other => panic!("unexpected {other:?}"),
        }
    }
}

#[test]
fn failed_lookup_is_server_error() {
    let (state, _) = whoami(String::from("k"));
    let (state, _) = whoami_step(state, Event::Connected(Ok(())));
    let (_, action) = whoami_step(state, Event::UserKeyRows(Err(DbError::Failed(String::from("boom")))));
    match action {
        Action::Respond(reply) => assert_eq!(reply.status, Status::InternalServerError),
        other => panic!("unexpected {other:?}"),
    }
}

#[test]
fn unexpected_event_ends_the_request() {
    let (state, _) = whoami(String::from("k"));
    let rid = state.request_id.clone();
    let (_, action) = whoami_step(state, Event::Executed(Ok(1)));
    match action {
        Action::Respond(reply) => {
            assert_eq!(reply.status, Status::InternalServerError);
            match reply.body {
                ReplyBody::RequestId(id) => assert_eq!(id, rid),
                other => panic!("unexpected {other:?}"),
            }
        }
        other => panic!("unexpected {other:?}"),
    }
}

#[test]
fn request_ids_are_fresh() {
    let (a, _) = whoami(String::from("k"));
    let (b, _) = whoami(String::from("k"));
    assert_eq!(a.request_id.len(), 36);
    assert_ne!(a.request_id, b.request_id);
}

#[test]
fn each_login_issues_a_new_key() {
    let mut db = MemoryDb::default();
    let first = registered_and_logged_in(&mut db, "two-logins", "pw");
    let second = auth_key_of(log_in(&mut db, "two-logins", "pw"));
    assert_ne!(first, second);
    assert_eq!(db.keys.len(), 2);
}

#[test]
fn hashing_with_a_given_salt() {
    let mut db = MemoryDb::default();
    let salt = "c29tZXNhbHR2YWx1ZQ";
    let (state, action) = register_account_with_salt(String::from("salted"), String::from("pw"), String::from(salt));
    assert!(matches!(action, Action::Connect));
    let hash = match &state.stage {
        rust_todo::web_api::RegisterStage::AwaitConnection { password_hash, .. } => password_hash.clone(),
        _ => panic!("no hash"),
    };
    assert_eq!(hash, format!("$argon2id$v=19$m=19456,t=2,p=1${salt}${}", &hash[31 + salt.len() + 1..]));
    assert_success(drive((state, action), register_account_step, &mut db), "Unable to register");
    assert_success(log_in(&mut db, "salted", "pw"), "Could not login.");
    let (_, action) = register_account_with_salt(String::from("salted2"), String::from("pw"), String::from("!"));
    match action {
        Action::Respond(reply) => assert_eq!(reply.status, Status::InternalServerError),
        other => panic!("unexpected {other:?}"),
    }
}

#[test]
fn taken_key_is_drawn_again() {
    let mut db = MemoryDb::default();
    assert_success(register(&mut db, "probe-user", "pw"), "Unable to register");
    let (state, action) = login(String::from("probe-user"), String::from("pw"));
    let event = db.perform(action);
    let (state, action) = login_step(state, event);
    let event = db.perform(action);
    let (state, action) = login_step(state, event);
    let first = match action {
        Action::FindUserByAuthKey(k) => k,
        other => panic!("unexpected {other:?}"),
    };
    db.keys.push((99, db.users[0].0, first.clone()));
    let event = db.perform(Action::FindUserByAuthKey(first.clone()));
    let (state, action) = login_step(state, event);
    let second = match &action {
        Action::FindUserByAuthKey(k) => k.clone(),
        other => panic!("unexpected {other:?}"),
    };
    assert_ne!(first, second);
    let reply = drive((state, action), login_step, &mut db);
    assert_eq!(auth_key_of(reply), second);
    assert_eq!(db.keys.len(), 2);
}
