use vstd::prelude::*;

verus! {

/// Why a database query failed, as far as the logic needs to know: no row
/// matched a lookup that needed one, or the database reported an error
/// (its message is kept for the log).
#[derive(Debug)]
pub enum DbError {
    NotFound,
    Failed(String),
}

/// The ways adding an account can fail.
#[derive(Debug)]
pub enum ApplicationDatabaseError {
    DieselError(DbError),
    QueryFailed(String),
    UserExists,
}

/// The mathematical value of an `AuthKey` row.
pub struct AuthKeyView {
    pub id: i32,
    pub user_id: i32,
    pub key: Seq<char>,
}

/// A complete entry from the auth_keys table in the database.
#[derive(Debug)]
pub struct AuthKey {
    id: i32,
    user_id: i32,
    key: String,
}

impl View for AuthKey {
    type V = AuthKeyView;

    closed spec fn view(&self) -> AuthKeyView {
        AuthKeyView { id: self.id, user_id: self.user_id, key: self.key@ }
    }
}

impl AuthKey {
    /// An auth_keys row with the given columns.
    pub fn new(id: i32, user_id: i32, key: String) -> (r: Self)
        ensures
            r@ == (AuthKeyView { id, user_id, key: key@ }),
    {
        AuthKey { id, user_id, key }
    }

    /// The id of the user that the key belongs to.
    pub fn user_id(&self) -> (r: i32)
        ensures
            r == self@.user_id,
    {
        self.user_id
    }

    /// The key itself.
    pub fn key(&self) -> (r: &String)
        ensures
            r@ == self@.key,
    {
        &self.key
    }
}

/// The mathematical value of a `Task`.
pub struct TaskView {
    pub id: i32,
    pub owner: i32,
    pub title: Seq<char>,
    pub description: Option<Seq<char>>,
    pub completed: bool,
}

/// The view of an optional text.
pub open spec fn opt_text(s: Option<String>) -> Option<Seq<char>> {
    match s {
        Some(t) => Some(t@),
        None => None,
    }
}

/// A complete entry from the tasks table in the database.
#[derive(Debug)]
pub struct Task {
    id: i32,
    owner: i32,
    title: String,
    description: Option<String>,
    completed: bool,
}

impl View for Task {
    type V = TaskView;

    closed spec fn view(&self) -> TaskView {
        TaskView {
            id: self.id,
            owner: self.owner,
            title: self.title@,
            description: opt_text(self.description),
            completed: self.completed,
        }
    }
}

impl Task {
    /// A tasks row with the given columns.
    pub fn new(
        id: i32,
        owner: i32,
        title: String,
        description: Option<String>,
        completed: bool,
    ) -> (r: Self)
        ensures
            r@ == (TaskView { id, owner, title: title@, description: opt_text(description), completed }),
    {
        Task { id, owner, title, description, completed }
    }

    /// The task's id.
    pub fn id(&self) -> (r: &i32)
        ensures
            *r == self@.id,
    {
        &self.id
    }

    /// The id of the user that owns the task.
    pub fn owner_id(&self) -> (r: &i32)
        ensures
            *r == self@.owner,
    {
        &self.owner
    }

    /// The task's title.
    pub fn title(&self) -> (r: &String)
        ensures
            r@ == self@.title,
    {
        &self.title
    }

    /// The task's description, if it has one.
    pub fn description(&self) -> (r: &Option<String>)
        ensures
            opt_text(*r) == self@.description,
    {
        &self.description
    }

    /// Whether the task is done.
    pub fn completed(&self) -> (r: bool)
        ensures
            r == self@.completed,
    {
        self.completed
    }
}

impl Clone for Task {
    fn clone(&self) -> (r: Self)
        ensures
            r@ == self@,
    {
        let description = match &self.description {
            Some(d) => Some(d.clone()),
            None => None,
        };
        Task {
            id: self.id,
            owner: self.owner,
            title: self.title.clone(),
            description,
            completed: self.completed,
        }
    }
}

/// The mathematical value of a `User`.
pub struct UserView {
    pub id: i32,
    pub username: Seq<char>,
    pub password: Seq<char>,
}

/// A complete entry from the users table in the database; `password` holds
/// the PHC string of the password's hash.
#[derive(Debug)]
pub struct User {
    id: i32,
    username: String,
    password: String,
}

impl View for User {
    type V = UserView;

    closed spec fn view(&self) -> UserView {
        UserView { id: self.id, username: self.username@, password: self.password@ }
    }
}

impl Clone for User {
    fn clone(&self) -> (r: Self)
        ensures
            r@ == self@,
    {
        User { id: self.id, username: self.username.clone(), password: self.password.clone() }
    }
}

impl User {
    /// A users row with the given columns.
    pub fn new(id: i32, username: String, password: String) -> (r: Self)
        ensures
            r@ == (UserView { id, username: username@, password: password@ }),
    {
        User { id, username, password }
    }

    pub fn ref_id(&self) -> (r: &i32)
        ensures
            *r == self@.id,
    {
        &self.id
    }

    pub fn ref_username(&self) -> (r: &String)
        ensures
            r@ == self@.username,
    {
        &self.username
    }

    pub fn ref_password(&self) -> (r: &String)
        ensures
            r@ == self@.password,
    {
        &self.password
    }
}

/// What `add_user` asks for after the lookup of the name.
#[derive(Debug)]
pub enum AddUserNext {
    /// The name is free: insert the new row.
    Insert,
    /// Adding the user is over, with this outcome.
    Done(Result<(), ApplicationDatabaseError>),
}

/// Whether a user with the looked-up name exists, from the rows that the
/// lookup of that name loaded: true exactly when there is at least one.
pub fn user_exists(rows: Result<Vec<User>, DbError>) -> (r: Result<bool, ApplicationDatabaseError>)
    ensures
        rows matches Ok(v) ==> (r matches Ok(b) && b == (v@.len() > 0)),
        rows matches Err(e) ==> (r matches Err(ApplicationDatabaseError::DieselError(d)) && d == e),
{
    match rows {
        Ok(v) => Ok(v.len() > 0),
        Err(e) => Err(ApplicationDatabaseError::DieselError(e)),
    }
}

/// Adding a user, once `user_exists` has answered for its name: a taken name
/// is refused, a failed lookup is passed on, a free name is inserted.
pub fn add_user(exists: Result<bool, ApplicationDatabaseError>) -> (r: AddUserNext)
    ensures
        exists == Ok::<bool, ApplicationDatabaseError>(false) ==> (r is Insert),
        exists == Ok::<bool, ApplicationDatabaseError>(true) ==> (r matches AddUserNext::Done(
            Err(ApplicationDatabaseError::UserExists),
        )),
        exists matches Err(e) ==> (r matches AddUserNext::Done(Err(f)) && f == e),
{
    match exists {
        Ok(false) => AddUserNext::Insert,
        Ok(true) => AddUserNext::Done(Err(ApplicationDatabaseError::UserExists)),
        Err(e) => AddUserNext::Done(Err(e)),
    }
}

/// The outcome of adding a user from that of its insertion: a failed
/// insertion becomes `QueryFailed` with the database's message.
pub fn add_user_inserted(inserted: Result<usize, String>) -> (r: Result<(), ApplicationDatabaseError>)
    ensures
        inserted is Ok ==> (r is Ok),
        inserted matches Err(m) ==> (r matches Err(ApplicationDatabaseError::QueryFailed(q)) && q@ == m@),
{
    match inserted {
        Ok(_) => Ok(()),
        Err(m) => Err(ApplicationDatabaseError::QueryFailed(m)),
    }
}

/// The user that an auth key belongs to, from the rows that joining the
/// key's auth_keys rows with users loaded: the first row's user, or
/// `NotFound` when there is none.
pub fn auth_key_to_user(rows: Result<Vec<(AuthKey, User)>, DbError>) -> (r: Result<User, DbError>)
    ensures
        rows matches Ok(v) ==> (v@.len() == 0 <==> (r matches Err(DbError::NotFound))),
        rows matches Ok(v) ==> (v@.len() > 0 ==> (r matches Ok(u) && u@ == v@[0].1@)),
        rows matches Err(e) ==> (r matches Err(f) && f == e),
{
    match rows {
        Ok(mut v) => {
            if v.len() == 0 {
                Err(DbError::NotFound)
            } else {
                let (_key, user) = v.remove(0);
                Ok(user)
            }
        },
        Err(e) => Err(e),
    }
}

/// No two users share a name.
pub open spec fn names_distinct(users: Seq<UserView>) -> bool {
    forall|i: int, j: int| 0 <= i < j < users.len() ==> users[i].username != users[j].username
}

/// The users of a table with the given name: what a lookup of the name loads.
pub open spec fn users_named(users: Seq<UserView>, name: Seq<char>) -> Seq<UserView> {
    users.filter(|u: UserView| u.username == name)
}

/// Adding a user whose name a lookup found in no row keeps the names of a
/// table distinct; `add_user` asks for an insertion only then.
pub proof fn law_free_name_keeps_names_distinct(users: Seq<UserView>, new_user: UserView)
    requires
        names_distinct(users),
        users_named(users, new_user.username).len() == 0,
    ensures
        names_distinct(users.push(new_user)),
{
    let pred = |u: UserView| u.username == new_user.username;
    assert forall|i: int| 0 <= i < users.len() implies users[i].username != new_user.username by {
        if users[i].username == new_user.username {
            users.lemma_filter_contains(pred, i);
        }
    }
    let all = users.push(new_user);
    assert forall|i: int, j: int| 0 <= i < j < all.len() implies all[i].username != all[j].username by {
        if j < users.len() {
            assert(all[i] == users[i] && all[j] == users[j]);
        } else {
            assert(all[i] == users[i] && all[j] == new_user);
        }
    }
}

/// No two auth keys are equal.
pub open spec fn keys_distinct(keys: Seq<AuthKeyView>) -> bool {
    forall|i: int, j: int| 0 <= i < j < keys.len() ==> keys[i].key != keys[j].key
}

/// The rows of a table with the given key: what a lookup of the key loads.
pub open spec fn keys_equal_to(keys: Seq<AuthKeyView>, key: Seq<char>) -> Seq<AuthKeyView> {
    keys.filter(|k: AuthKeyView| k.key == key)
}

/// Adding a key that a lookup found in no row keeps the keys of a table
/// distinct; login stores a key only then.
pub proof fn law_unused_key_keeps_keys_distinct(keys: Seq<AuthKeyView>, new_key: AuthKeyView)
    requires
        keys_distinct(keys),
        keys_equal_to(keys, new_key.key).len() == 0,
    ensures
        keys_distinct(keys.push(new_key)),
{
    let pred = |k: AuthKeyView| k.key == new_key.key;
    assert forall|i: int| 0 <= i < keys.len() implies keys[i].key != new_key.key by {
        if keys[i].key == new_key.key {
            keys.lemma_filter_contains(pred, i);
        }
    }
    let all = keys.push(new_key);
    assert forall|i: int, j: int| 0 <= i < j < all.len() implies all[i].key != all[j].key by {
        if j < keys.len() {
            assert(all[i] == keys[i] && all[j] == keys[j]);
        } else {
            assert(all[i] == keys[i] && all[j] == new_key);
        }
    }
}

} // verus!
