//! The user store: registration and lookup by identifier or email.
//!
//! Emails are compared exactly as stored, character by character: two
//! addresses that differ only in letter case are two addresses.

use vstd::prelude::*;
use crate::errors::StoreError;
use crate::models::user::UserModel;
use crate::models::user::UserIdentity;
use crate::password::PasswordCheck;
use crate::password::password_check;
use crate::password::generate_hash;
use crate::password::MAX_PASSWORD_BYTES;

verus! {

/// A stored user. `password` holds the hash, never the cleartext.
#[derive(Debug, PartialEq, Eq)]
pub struct UserDb {
    pub id: u128,
    pub name: String,
    pub email: String,
    pub password: String,
}

/// The mathematical value of a stored user.
pub struct UserRow {
    pub id: u128,
    pub name: Seq<char>,
    pub email: Seq<char>,
    pub password: Seq<char>,
}

impl View for UserDb {
    type V = UserRow;

    open spec fn view(&self) -> UserRow {
        UserRow { id: self.id, name: self.name@, email: self.email@, password: self.password@ }
    }
}

impl Clone for UserDb {
    fn clone(&self) -> (copy: Self)
        ensures
            copy@ == self@,
    {
        UserDb {
            id: self.id,
            name: self.name.clone(),
            email: self.email.clone(),
            password: self.password.clone(),
        }
    }
}

impl UserDb {
    /// The public identity of this user: everything but the password hash.
    pub fn to_model(&self) -> (model: UserModel)
        ensures
            model@ == (UserIdentity { id: self.id, name: self.name@, email: self.email@ }),
    {
        UserModel { id: self.id, name: self.name.clone(), email: self.email.clone() }
    }

    /// The identifier under which a session remembers this user.
    pub fn id(&self) -> (id: u128)
        ensures
            id == self.id,
    {
        self.id
    }

    /// The bytes that a session keeps to recognise a later change of
    /// password: the bytes of the stored password hash.
    pub fn session_auth_hash(&self) -> (hash: &[u8])
        ensures
            hash@ == vstd::utf8::encode_utf8(self.password@),
    {
        self.password.as_str().as_bytes()
    }
}

/// A registration as submitted: the password is still cleartext.
#[derive(Debug)]
pub struct NewUserDb {
    pub name: String,
    pub email: String,
    pub password: String,
}

/// A login as submitted, with the page to go to afterwards.
#[derive(Debug, Clone)]
pub struct Credentials {
    pub email: String,
    pub password: String,
    pub next: Option<String>,
}

/// No two rows share an identifier, and no two share an email.
pub open spec fn distinct_users(rows: Seq<UserRow>) -> bool {
    forall|i: int, j: int|
        0 <= i < j < rows.len() ==> rows[i].id != rows[j].id && rows[i].email != rows[j].email
}

/// Some row of `rows` has the email `email`.
pub open spec fn has_email(rows: Seq<UserRow>, email: Seq<char>) -> bool {
    exists|i: int| 0 <= i < rows.len() && #[trigger] rows[i].email == email
}

/// Some row of `rows` has the identifier `id`.
pub open spec fn has_id(rows: Seq<UserRow>, id: u128) -> bool {
    exists|i: int| 0 <= i < rows.len() && #[trigger] rows[i].id == id
}

/// The table of users, in the order of registration.
#[derive(Debug)]
pub struct UserTable {
    rows: Vec<UserDb>,
}

impl View for UserTable {
    type V = Seq<UserRow>;

    closed spec fn view(&self) -> Seq<UserRow> {
        Seq::new(self.rows@.len(), |i: int| self.rows@[i]@)
    }
}

impl UserTable {
    /// The table's invariant: identifiers and emails are unique.
    pub open spec fn wf(&self) -> bool {
        distinct_users(self@)
    }

    /// A table without users.
    pub fn new() -> (table: UserTable)
        ensures
            table@ == Seq::<UserRow>::empty(),
            table.wf(),
    {
        let table = UserTable { rows: Vec::new() };
        assert(table@ =~= Seq::<UserRow>::empty());
        table
    }

    /// Adds a user whose identifier and password hash are already made.
    ///
    /// An email that is taken gives `DuplicateEmail`; otherwise an
    /// identifier that is taken gives `StorageFailure`. Either way the
    /// table stays as it was. Else the row is appended and returned.
    pub fn insert(&mut self, id: u128, name: String, email: String, password: String) -> (result:
        Result<UserDb, StoreError>)
        requires
            old(self).wf(),
        ensures
            final(self).wf(),
            has_email(old(self)@, email@) ==> result == Err::<UserDb, StoreError>(
                StoreError::DuplicateEmail,
            ) && final(self)@ == old(self)@,
            !has_email(old(self)@, email@) && has_id(old(self)@, id) ==> result == Err::<
                UserDb,
                StoreError,
            >(StoreError::StorageFailure) && final(self)@ == old(self)@,
            !has_email(old(self)@, email@) && !has_id(old(self)@, id) ==> result is Ok
                && result->Ok_0@ == (UserRow { id, name: name@, email: email@, password: password@ })
                && final(self)@ == old(self)@.push(result->Ok_0@),
    {
        let mut id_taken = false;
        let mut i: usize = 0;
        while i < self.rows.len()
            invariant
                i <= self.rows.len(),
                *self == *old(self),
                self.wf(),
                forall|j: int| 0 <= j < i ==> self@[j].email != email@,
                id_taken == exists|j: int| 0 <= j < i && #[trigger] self@[j].id == id,
            decreases self.rows.len() - i,
        {
            if self.rows[i].email == email {
                assert(self@[i as int].email == email@);
                return Err(StoreError::DuplicateEmail);
            }
            if self.rows[i].id == id {
                assert(self@[i as int].id == id);
                id_taken = true;
            }
            i += 1;
        }
        if id_taken {
            return Err(StoreError::StorageFailure);
        }
        let row = UserDb { id, name, email, password };
        let stored = row.clone();
        self.rows.push(row);
        assert(self@ =~= old(self)@.push(stored@));
        Ok(stored)
    }
}

/// Calls `uuid::Uuid::new_v4`, which draws a random identifier, and hands
/// its 128 bits over as an integer. Nothing is promised of the value.
#[verifier::external_body]
pub(crate) fn fresh_id() -> u128 {
    uuid::Uuid::new_v4().as_u128()
}

/// All users, in the order of registration.
pub fn get_users(conn: &UserTable) -> (result: Result<Vec<UserDb>, StoreError>)
    ensures
        result is Ok,
        result->Ok_0@.len() == conn@.len(),
        forall|i: int| 0 <= i < conn@.len() ==> (#[trigger] result->Ok_0@[i])@ == conn@[i],
{
    let mut users: Vec<UserDb> = Vec::new();
    let mut i: usize = 0;
    while i < conn.rows.len()
        invariant
            i <= conn.rows.len(),
            users@.len() == i,
            forall|j: int| 0 <= j < i ==> (#[trigger] users@[j])@ == conn@[j],
        decreases conn.rows.len() - i,
    {
        users.push(conn.rows[i].clone());
        i += 1;
    }
    Ok(users)
}

/// Registers a user: hashes the password, draws an identifier and stores
/// the row.
///
/// An email that is already registered gives `DuplicateEmail`. Otherwise
/// the user is stored with a hash that accepts the submitted password,
/// unless the drawn identifier is taken, which gives `StorageFailure` and
/// cannot happen in an empty table. On an error the table stays as it was.
pub fn create_user(connection: &mut UserTable, user: NewUserDb) -> (result: Result<
    UserDb,
    StoreError,
>)
    requires
        old(connection).wf(),
        vstd::utf8::encode_utf8(user.password@).len() <= MAX_PASSWORD_BYTES,
    ensures
        final(connection).wf(),
        has_email(old(connection)@, user.email@) ==> result == Err::<UserDb, StoreError>(
            StoreError::DuplicateEmail,
        ),
        match result {
            Ok(created) => {
                &&& !has_email(old(connection)@, user.email@)
                &&& !has_id(old(connection)@, created.id)
                &&& created.name@ == user.name@
                &&& created.email@ == user.email@
                &&& password_check(user.password@, created.password@) == PasswordCheck::Accepted
                &&& final(connection)@ == old(connection)@.push(created@)
            },
            Err(error) => {
                &&& final(connection)@ == old(connection)@
                &&& error == StoreError::DuplicateEmail || error == StoreError::StorageFailure
                &&& error == StoreError::DuplicateEmail <==> has_email(
                    old(connection)@,
                    user.email@,
                )
                &&& error == StoreError::StorageFailure ==> old(connection)@.len() > 0
            },
        },
{
    let hash = generate_hash(user.password.as_str());
    let id = fresh_id();
    connection.insert(id, user.name, user.email, hash)
}

/// The user with the identifier `user_id`, or `NotFound`.
pub fn get_by_id(connection: &UserTable, user_id: u128) -> (result: Result<UserDb, StoreError>)
    ensures
        match result {
            Ok(user) => user.id == user_id && connection@.contains(user@),
            Err(error) => error == StoreError::NotFound && !has_id(connection@, user_id),
        },
{
    let mut i: usize = 0;
    while i < connection.rows.len()
        invariant
            i <= connection.rows.len(),
            forall|j: int| 0 <= j < i ==> connection@[j].id != user_id,
        decreases connection.rows.len() - i,
    {
        if connection.rows[i].id == user_id {
            let user = connection.rows[i].clone();
            assert(connection@[i as int] == user@);
            return Ok(user);
        }
        i += 1;
    }
    Err(StoreError::NotFound)
}

/// The user registered under `email`, or `NotFound`.
pub fn get_by_email(connection: &UserTable, email: String) -> (result: Result<UserDb, StoreError>)
    ensures
        match result {
            Ok(user) => user.email@ == email@ && connection@.contains(user@),
            Err(error) => error == StoreError::NotFound && !has_email(connection@, email@),
        },
{
    let mut i: usize = 0;
    while i < connection.rows.len()
        invariant
            i <= connection.rows.len(),
            forall|j: int| 0 <= j < i ==> connection@[j].email != email@,
        decreases connection.rows.len() - i,
    {
        if connection.rows[i].email == email {
            let user = connection.rows[i].clone();
            assert(connection@[i as int] == user@);
            return Ok(user);
        }
        i += 1;
    }
    Err(StoreError::NotFound)
}

} // verus!
