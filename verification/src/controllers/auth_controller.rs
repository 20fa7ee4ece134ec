//! The login and registration forms: what is stored, what the session is
//! bound to, and what the browser is answered.

use vstd::prelude::*;
use crate::errors::StoreError;
use crate::password::MAX_PASSWORD_BYTES;
use crate::password::PasswordCheck;
use crate::password::password_check;
use crate::repositories::auth_backend::AuthSession;
use crate::repositories::auth_backend::Backend;
use crate::repositories::auth_backend::LoginOutcome;
use crate::repositories::auth_backend::Pending;
use crate::repositories::auth_backend::SessionState;
use crate::repositories::auth_backend::login_outcome;
use crate::repositories::user_repository::Credentials;
use crate::repositories::user_repository::NewUserDb;
use crate::repositories::user_repository::has_email;

verus! {

/// What a form handler answers.
#[derive(Debug, PartialEq, Eq)]
pub enum Response {
    /// Send the browser to this path.
    Redirect(String),
    /// Show the login form again.
    LoginPage,
    /// Show the registration form again.
    RegisterPage,
    /// Answer with a generic server error.
    ServerError,
}

/// The mathematical value of a [`Response`].
pub enum Answer {
    Redirect(Seq<char>),
    LoginPage,
    RegisterPage,
    ServerError,
}

impl View for Response {
    type V = Answer;

    open spec fn view(&self) -> Answer {
        match self {
            Response::Redirect(to) => Answer::Redirect(to@),
            Response::LoginPage => Answer::LoginPage,
            Response::RegisterPage => Answer::RegisterPage,
            Response::ServerError => Answer::ServerError,
        }
    }
}

/// Where a login goes on to: the page that the form named, else the home
/// page.
pub open spec fn destination(next: Option<String>) -> Seq<char> {
    match next {
        Some(path) => path@,
        None => "/"@,
    }
}

/// Handles a submitted login form.
///
/// Credentials that authenticate a user bind that user to the session,
/// which is then owed a save, and redirect to the page named in the form
/// or to the home page. Credentials that are rejected show the login form
/// again, and a failure answers with a server error; in both cases the
/// session stays as it was.
pub fn login(backend: &Backend, auth_session: &mut AuthSession, creds: Credentials) -> (response:
    Response)
    requires
        backend.wf(),
    ensures
        match login_outcome(backend@, creds.email@, creds.password@) {
            LoginOutcome::Authenticated(user) => {
                &&& final(auth_session)@ == (SessionState {
                    user: Some(user),
                    pending: Pending::Save,
                })
                &&& response@ == Answer::Redirect(destination(creds.next))
            },
            LoginOutcome::Rejected => {
                &&& final(auth_session)@ == old(auth_session)@
                &&& response@ == Answer::LoginPage
            },
            LoginOutcome::Failed(_) => {
                &&& final(auth_session)@ == old(auth_session)@
                &&& response@ == Answer::ServerError
            },
        },
{
    let Credentials { email, password, next } = creds;
    let user = match backend.authenticate(Credentials { email, password, next: None }) {
        Ok(Some(user)) => user,
        Ok(None) => {
            return Response::LoginPage;
        },
        Err(_) => {
            return Response::ServerError;
        },
    };
    auth_session.login(&user);
    match next {
        Some(path) => Response::Redirect(path),
        None => Response::Redirect("/".to_owned()),
    }
}

/// Handles a submitted registration form.
///
/// An email that is already registered shows the form again. Otherwise
/// the user is stored, with a hash that accepts the submitted password,
/// bound to the session, which is then owed a save, and the browser is
/// sent to the home page; unless the store fails, which answers with a
/// server error and cannot happen while nobody is registered. Where no
/// user is stored, the users and the session stay as they were.
pub fn register(backend: &mut Backend, auth_session: &mut AuthSession, creds: NewUserDb) -> (response:
    Response)
    requires
        old(backend).wf(),
        vstd::utf8::encode_utf8(creds.password@).len() <= MAX_PASSWORD_BYTES,
    ensures
        final(backend).wf(),
        has_email(old(backend)@, creds.email@) <==> response@ == Answer::RegisterPage,
        response@ == Answer::ServerError ==> old(backend)@.len() > 0,
        match response@ {
            Answer::Redirect(to) => {
                &&& to == "/"@
                &&& final(auth_session)@.pending == Pending::Save
                &&& final(auth_session)@.user matches Some(created)
                &&& created.name == creds.name@
                &&& created.email == creds.email@
                &&& password_check(creds.password@, created.password) == PasswordCheck::Accepted
                &&& final(backend)@ == old(backend)@.push(created)
            },
            Answer::RegisterPage | Answer::ServerError => {
                &&& final(backend)@ == old(backend)@
                &&& final(auth_session)@ == old(auth_session)@
            },
            Answer::LoginPage => false,
        },
{
    match backend.register(creds) {
        Ok(user) => {
            auth_session.login(&user);
            Response::Redirect("/".to_owned())
        },
        Err(StoreError::DuplicateEmail) => Response::RegisterPage,
        Err(_) => Response::ServerError,
    }
}

} // verus!
