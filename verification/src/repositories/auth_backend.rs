//! The authentication backend: checks a login against the user store and
//! resolves the user that a session is bound to.
//!
//! A login is rejected in the same way whether the email is unknown or the
//! password is wrong.

use vstd::prelude::*;
use crate::errors::StoreError;
use crate::password::MAX_PASSWORD_BYTES;
use crate::password::PasswordCheck;
use crate::password::password_check;
use crate::password::verify_password;
use crate::repositories::user_repository;
use crate::repositories::user_repository::Credentials;
use crate::repositories::user_repository::NewUserDb;
use crate::repositories::user_repository::UserDb;
use crate::repositories::user_repository::UserRow;
use crate::repositories::user_repository::UserTable;
use crate::repositories::user_repository::distinct_users;
use crate::repositories::user_repository::has_email;
use crate::repositories::user_repository::has_id;

verus! {

/// What a login attempt comes to, as a mathematical value.
pub enum LoginOutcome {
    /// The password fits: the user is authenticated.
    Authenticated(UserRow),
    /// Unknown email or wrong password.
    Rejected,
    /// The stored hash of the user is malformed.
    Failed(StoreError),
}

/// What `result` holds, as a mathematical value.
pub open spec fn outcome_of(result: Result<Option<UserDb>, StoreError>) -> LoginOutcome {
    match result {
        Ok(Some(user)) => LoginOutcome::Authenticated(user@),
        Ok(None) => LoginOutcome::Rejected,
        Err(error) => LoginOutcome::Failed(error),
    }
}

/// What a login comes to once the user is found and the password has been
/// checked against the stored hash.
pub open spec fn decided(user: UserRow, check: PasswordCheck) -> LoginOutcome {
    match check {
        PasswordCheck::Accepted => LoginOutcome::Authenticated(user),
        PasswordCheck::Rejected => LoginOutcome::Rejected,
        PasswordCheck::CorruptCredential => LoginOutcome::Failed(StoreError::CorruptCredential),
    }
}

/// What a login with `email` and `password` comes to against the users
/// `users`.
pub open spec fn login_outcome(users: Seq<UserRow>, email: Seq<char>, password: Seq<char>)
    -> LoginOutcome {
    if has_email(users, email) {
        let i = choose|i: int| 0 <= i < users.len() && #[trigger] users[i].email == email;
        decided(users[i], password_check(password, users[i].password))
    } else {
        LoginOutcome::Rejected
    }
}

/// What the user that a session is bound to resolves to.
pub open spec fn resolved(found: Option<UserDb>) -> Option<UserRow> {
    match found {
        Some(user) => Some(user@),
        None => None,
    }
}

/// Turns a found user and the outcome of the password check into the
/// result of the login.
pub fn decide(user: UserDb, check: PasswordCheck) -> (result: Result<Option<UserDb>, StoreError>)
    ensures
        outcome_of(result) == decided(user@, check),
{
    match check {
        PasswordCheck::Accepted => Ok(Some(user)),
        PasswordCheck::Rejected => Ok(None),
        PasswordCheck::CorruptCredential => Err(StoreError::CorruptCredential),
    }
}

/// The authentication backend over the user store.
#[derive(Debug)]
pub struct Backend {
    pool: UserTable,
}

impl View for Backend {
    type V = Seq<UserRow>;

    closed spec fn view(&self) -> Seq<UserRow> {
        self.pool@
    }
}

impl Backend {
    /// The backend's invariant: that of its user table.
    pub open spec fn wf(&self) -> bool {
        distinct_users(self@)
    }

    /// A backend over the users `pool`.
    pub fn new(pool: UserTable) -> (backend: Backend)
        requires
            pool.wf(),
        ensures
            backend.wf(),
            backend@ == pool@,
    {
        Backend { pool }
    }

    /// Checks a login. The user registered under the email is looked up
    /// and the password checked against the stored hash: a fitting
    /// password authenticates that user; an unknown email and a wrong
    /// password are both rejected with `Ok(None)`; a malformed stored hash
    /// gives `CorruptCredential`.
    pub fn authenticate(&self, creds: Credentials) -> (result: Result<Option<UserDb>, StoreError>)
        requires
            self.wf(),
        ensures
            outcome_of(result) == login_outcome(self@, creds.email@, creds.password@),
    {
        match user_repository::get_by_email(&self.pool, creds.email) {
            Ok(user) => {
                proof {
                    let users = self@;
                    let i = choose|i: int| 0 <= i < users.len() && #[trigger] users[i] == user@;
                    assert(users[i].email == creds.email@);
                    let j = choose|j: int|
                        0 <= j < users.len() && #[trigger] users[j].email == creds.email@;
                    assert(i == j);
                }
                let check = verify_password(creds.password.as_str(), user.password.as_str());
                decide(user, check)
            },
            Err(_) => Ok(None),
        }
    }

    /// Registers a user in the backend's store, as
    /// [`user_repository::create_user`] does.
    pub fn register(&mut self, user: NewUserDb) -> (result: Result<UserDb, StoreError>)
        requires
            old(self).wf(),
            vstd::utf8::encode_utf8(user.password@).len() <= MAX_PASSWORD_BYTES,
        ensures
            final(self).wf(),
            has_email(old(self)@, user.email@) ==> result == Err::<UserDb, StoreError>(
                StoreError::DuplicateEmail,
            ),
            match result {
                Ok(created) => {
                    &&& !has_email(old(self)@, user.email@)
                    &&& !has_id(old(self)@, created.id)
                    &&& created.name@ == user.name@
                    &&& created.email@ == user.email@
                    &&& password_check(user.password@, created.password@) == PasswordCheck::Accepted
                    &&& final(self)@ == old(self)@.push(created@)
                },
                Err(error) => {
                    &&& final(self)@ == old(self)@
                    &&& error == StoreError::DuplicateEmail || error == StoreError::StorageFailure
                    &&& error == StoreError::DuplicateEmail <==> has_email(old(self)@, user.email@)
                    &&& error == StoreError::StorageFailure ==> old(self)@.len() > 0
                },
            },
    {
        user_repository::create_user(&mut self.pool, user)
    }

    /// The user that a session bound to `user_id` belongs to, read afresh
    /// from the store; nothing where no such user is registered.
    pub fn get_user(&self, user_id: &u128) -> (result: Result<Option<UserDb>, StoreError>)
        requires
            self.wf(),
        ensures
            result is Ok,
            match result->Ok_0 {
                Some(user) => user.id == *user_id && self@.contains(user@),
                None => !has_id(self@, *user_id),
            },
    {
        match user_repository::get_by_id(&self.pool, *user_id) {
            Ok(user) => Ok(Some(user)),
            Err(_) => Ok(None),
        }
    }
}

/// What a session's payload holds of the user it is bound to: the user's
/// identifier, and the bytes of the password hash at the time of login.
#[derive(Debug, PartialEq, Eq)]
pub struct Binding {
    pub user_id: u128,
    pub auth_hash: Vec<u8>,
}

/// The mathematical value of a [`Binding`].
pub struct BoundUser {
    pub user_id: u128,
    pub auth_hash: Seq<u8>,
}

impl View for Binding {
    type V = BoundUser;

    open spec fn view(&self) -> BoundUser {
        BoundUser { user_id: self.user_id, auth_hash: self.auth_hash@ }
    }
}

/// The write that the session store is owed when the request is done.
#[derive(Clone, Copy, Debug, PartialEq, Eq, Structural)]
pub enum Pending {
    /// The session is as the store has it.
    Nothing,
    /// The session changed and is to be saved.
    Save,
    /// The session ended and its row is to be deleted.
    Delete,
}

/// What is decided for a request to a protected page.
#[derive(Clone, Copy, Debug, PartialEq, Eq, Structural)]
pub enum Access {
    /// A user is bound: the page's handler runs.
    Granted,
    /// No user is bound: the request is sent to the login page and the
    /// handler does not run.
    RedirectToLogin,
}

/// The mathematical value of an [`AuthSession`].
pub struct SessionState {
    pub user: Option<UserRow>,
    pub pending: Pending,
}

/// The binding that a session of `user` carries.
pub open spec fn binding_of(user: UserRow) -> BoundUser {
    BoundUser { user_id: user.id, auth_hash: vstd::utf8::encode_utf8(user.password) }
}

/// The state of a session at the start of a request, from the binding
/// in its payload and the users as they are now. The binding holds only
/// if its user is still registered and the password hash is still the one
/// of the login; a binding that does not hold ends the session.
pub open spec fn requested(users: Seq<UserRow>, binding: Option<BoundUser>) -> SessionState {
    match binding {
        None => SessionState { user: None, pending: Pending::Nothing },
        Some(bound) => {
            if exists|i: int| 0 <= i < users.len() && binding_of(#[trigger] users[i]) == bound {
                let i = choose|i: int| 0 <= i < users.len() && binding_of(#[trigger] users[i]) == bound;
                SessionState { user: Some(users[i]), pending: Pending::Nothing }
            } else {
                SessionState { user: None, pending: Pending::Delete }
            }
        },
    }
}

/// Whether two byte strings are equal.
fn same_bytes(left: &[u8], right: &[u8]) -> (same: bool)
    ensures
        same == (left@ == right@),
{
    if left.len() != right.len() {
        return false;
    }
    let mut i: usize = 0;
    while i < left.len()
        invariant
            i <= left.len(),
            left.len() == right.len(),
            forall|j: int| 0 <= j < i ==> left@[j] == right@[j],
        decreases left.len() - i,
    {
        if left[i] != right[i] {
            return false;
        }
        i += 1;
    }
    assert(left@ =~= right@);
    true
}

/// A session as a request holds it: the user it is bound to, if any, and
/// the write that the store is owed afterwards.
#[derive(Debug)]
pub struct AuthSession {
    user: Option<UserDb>,
    pending: Pending,
}

impl View for AuthSession {
    type V = SessionState;

    closed spec fn view(&self) -> SessionState {
        SessionState { user: resolved(self.user), pending: self.pending }
    }
}

impl AuthSession {
    /// The session of a request whose payload holds `binding`.
    pub fn load_for_request(backend: &Backend, binding: Option<Binding>) -> (session: AuthSession)
        requires
            backend.wf(),
        ensures
            session@ == requested(
                backend@,
                match binding {
                    Some(bound) => Some(bound@),
                    None => None,
                },
            ),
    {
        let bound = match binding {
            Some(bound) => bound,
            None => {
                return AuthSession { user: None, pending: Pending::Nothing };
            },
        };
        let ghost users = backend@;
        let found = match user_repository::get_by_id(&backend.pool, bound.user_id) {
            Ok(user) => {
                if same_bytes(user.session_auth_hash(), bound.auth_hash.as_slice()) {
                    Some(user)
                } else {
                    None
                }
            },
            Err(_) => None,
        };
        match found {
            Some(user) => {
                proof {
                    let i = choose|i: int| 0 <= i < users.len() && #[trigger] users[i] == user@;
                    assert(binding_of(users[i]) == bound@);
                    let j = choose|j: int|
                        0 <= j < users.len() && binding_of(#[trigger] users[j]) == bound@;
                    assert(i == j);
                }
                AuthSession { user: Some(user), pending: Pending::Nothing }
            },
            None => {
                proof {
                    if exists|i: int|
                        0 <= i < users.len() && binding_of(#[trigger] users[i]) == bound@ {
                        let i = choose|i: int|
                            0 <= i < users.len() && binding_of(#[trigger] users[i]) == bound@;
                        assert(users[i].id == bound.user_id);
                        assert(has_id(users, bound.user_id));
                        let k = choose|k: int| 0 <= k < users.len() && #[trigger] users[k].id == bound.user_id;
                        assert(k == i);
                        assert(false);
                    }
                }
                AuthSession { user: None, pending: Pending::Delete }
            },
        }
    }

    /// The user that the session is bound to, if any.
    pub fn user(&self) -> (user: Option<&UserDb>)
        ensures
            match user {
                Some(user) => self@.user == Some(user@),
                None => self@.user is None,
            },
    {
        self.user.as_ref()
    }

    /// The write that the store is owed when the request is done.
    pub fn pending(&self) -> (pending: Pending)
        ensures
            pending == self@.pending,
    {
        self.pending
    }

    /// What the session's payload is to hold of its user when it is saved.
    pub fn binding(&self) -> (binding: Option<Binding>)
        ensures
            match binding {
                Some(bound) => self@.user is Some && bound@ == binding_of(self@.user->Some_0),
                None => self@.user is None,
            },
    {
        match &self.user {
            Some(user) => {
                let auth_hash = vstd::slice::slice_to_vec(user.session_auth_hash());
                Some(Binding { user_id: user.id, auth_hash })
            },
            None => None,
        }
    }

    /// Binds `user` to the session, in place of whoever was bound, and
    /// owes the store a save.
    pub fn login(&mut self, user: &UserDb)
        ensures
            final(self)@ == (SessionState { user: Some(user@), pending: Pending::Save }),
    {
        self.user = Some(user.clone());
        self.pending = Pending::Save;
    }

    /// Unbinds the session's user and owes the store the deletion of the
    /// session.
    pub fn logout(&mut self)
        ensures
            final(self)@ == (SessionState { user: None, pending: Pending::Delete }),
    {
        self.user = None;
        self.pending = Pending::Delete;
    }

    /// The guard before a protected page: the handler may run only for a
    /// session with a user.
    pub fn require_login(&self) -> (access: Access)
        ensures
            access == if self@.user is Some {
                Access::Granted
            } else {
                Access::RedirectToLogin
            },
    {
        if self.user.is_some() {
            Access::Granted
        } else {
            Access::RedirectToLogin
        }
    }
}

} // verus!
