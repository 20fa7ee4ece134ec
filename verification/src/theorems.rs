//! What holds of the stores and of the login across several operations,
//! stated over the models that the operations' contracts speak of.

use vstd::prelude::*;
use crate::password::PasswordCheck;
use crate::password::password_check;
use crate::repositories::auth_backend::BoundUser;
use crate::repositories::auth_backend::LoginOutcome;
use crate::repositories::auth_backend::Pending;
use crate::repositories::auth_backend::SessionState;
use crate::repositories::auth_backend::binding_of;
use crate::repositories::auth_backend::requested;
use crate::repositories::auth_backend::decided;
use crate::repositories::auth_backend::login_outcome;
use crate::repositories::session_repository::SessionRow;
use crate::repositories::session_repository::is_expired;
use crate::repositories::session_repository::loaded;
use crate::repositories::session_repository::swept;
use crate::repositories::user_repository::UserRow;
use crate::repositories::user_repository::distinct_users;
use crate::repositories::user_repository::has_email;
use crate::repositories::user_repository::has_id;

verus! {

/// Once a user is registered, a login under the user's email comes to
/// what the check of the attempted password against the stored hash
/// gives: it authenticates that user exactly when the check accepts, and
/// the password of the registration is accepted.
pub proof fn login_after_registration(
    users: Seq<UserRow>,
    created: UserRow,
    password: Seq<char>,
    attempt: Seq<char>,
)
    requires
        distinct_users(users),
        !has_email(users, created.email),
        !has_id(users, created.id),
        password_check(password, created.password) == PasswordCheck::Accepted,
    ensures
        distinct_users(users.push(created)),
        login_outcome(users.push(created), created.email, password) == LoginOutcome::Authenticated(
            created,
        ),
        login_outcome(users.push(created), created.email, attempt) == decided(
            created,
            password_check(attempt, created.password),
        ),
        login_outcome(users.push(created), created.email, attempt) is Authenticated
            <==> password_check(attempt, created.password) == PasswordCheck::Accepted,
{
    let all = users.push(created);
    let last = users.len() as int;
    assert(all[last] == created);
    assert forall|i: int, j: int| 0 <= i < j < all.len() implies all[i].id != all[j].id && all[i].email
        != all[j].email by {
        if j == last {
            assert(all[i] == users[i]);
            assert(users[i].email != created.email);
            assert(users[i].id != created.id);
        } else {
            assert(all[i] == users[i] && all[j] == users[j]);
        }
    }
    assert(has_email(all, created.email));
    let k = choose|k: int| 0 <= k < all.len() && #[trigger] all[k].email == created.email;
    if k != last {
        assert(all[k] == users[k]);
        assert(users[k].email == created.email);
    }
}

/// A login under an email that nobody registered and a login with a
/// password that the stored hash rejects come to the same outcome.
pub proof fn rejections_alike(
    users: Seq<UserRow>,
    unknown_email: Seq<char>,
    any_password: Seq<char>,
    user: int,
    wrong_password: Seq<char>,
)
    requires
        distinct_users(users),
        !has_email(users, unknown_email),
        0 <= user < users.len(),
        password_check(wrong_password, users[user].password) == PasswordCheck::Rejected,
    ensures
        login_outcome(users, unknown_email, any_password) == LoginOutcome::Rejected,
        login_outcome(users, users[user].email, wrong_password) == LoginOutcome::Rejected,
{
    let email = users[user].email;
    assert(has_email(users, email));
    let k = choose|k: int| 0 <= k < users.len() && #[trigger] users[k].email == email;
    assert(k == user);
}

/// After a registration the email is taken: a second registration under
/// it is refused as a duplicate.
pub proof fn email_taken_after_registration(users: Seq<UserRow>, created: UserRow)
    ensures
        has_email(users.push(created), created.email),
{
    assert(users.push(created)[users.len() as int].email == created.email);
}

/// A session that is saved and then loaded under its identifier before it
/// expires comes back with the payload and the expiry that were saved,
/// whatever the table held before.
pub proof fn save_then_load(table: Map<Seq<char>, SessionRow>, record: SessionRow, now: i64)
    requires
        now < record.expiry_date,
    ensures
        loaded(table.insert(record.id, record), record.id, now) == Some(record),
{
}

/// Saving leaves the sessions stored under other identifiers as they were.
pub proof fn save_keeps_others(
    table: Map<Seq<char>, SessionRow>,
    record: SessionRow,
    other: Seq<char>,
    now: i64,
)
    requires
        other != record.id,
    ensures
        loaded(table.insert(record.id, record), other, now) == loaded(table, other, now),
{
}

/// Deleting a session a second time changes nothing, and after a deletion
/// the session is not loaded at any moment.
pub proof fn delete_twice(table: Map<Seq<char>, SessionRow>, id: Seq<char>, now: i64)
    ensures
        table.remove(id).remove(id) == table.remove(id),
        loaded(table.remove(id), id, now) is None,
{
    assert(table.remove(id).remove(id) =~= table.remove(id));
}

/// A session is loaded only while the present moment lies before its
/// expiry: at the very moment of its expiry, and at any later one, it is
/// not loaded, though the table still holds its row.
pub proof fn expired_is_absent(table: Map<Seq<char>, SessionRow>, id: Seq<char>, now: i64)
    requires
        table.contains_key(id),
    ensures
        loaded(table, id, now) is Some <==> now < table[id].expiry_date,
        now == table[id].expiry_date ==> loaded(table, id, now) is None,
        now >= table[id].expiry_date ==> loaded(table, id, now) is None,
{
}

/// A sweep removes the rows whose expiry lies before the moment of the
/// sweep, and only those: every other row stays, unchanged. No row that
/// a request could still load is swept.
pub proof fn sweep_removes_expired_only(table: Map<Seq<char>, SessionRow>, now: i64, id: Seq<char>)
    ensures
        swept(table, now).contains_key(id) <==> table.contains_key(id) && !is_expired(
            table[id],
            now,
        ),
        swept(table, now).contains_key(id) ==> swept(table, now)[id] == table[id],
        loaded(swept(table, now), id, now) == loaded(table, id, now),
{
}

/// A session saved with an expiry that has not passed survives a sweep,
/// whether it was saved before the sweep or after it.
pub proof fn sweep_spares_saved(table: Map<Seq<char>, SessionRow>, record: SessionRow, now: i64)
    requires
        !is_expired(record, now),
    ensures
        swept(table.insert(record.id, record), now) == swept(table, now).insert(record.id, record),
        swept(table.insert(record.id, record), now).contains_key(record.id),
        swept(table.insert(record.id, record), now)[record.id] == record,
{
    assert(swept(table.insert(record.id, record), now) =~= swept(table, now).insert(
        record.id,
        record,
    ));
}

/// A second sweep at the same moment removes nothing more.
pub proof fn sweep_twice(table: Map<Seq<char>, SessionRow>, now: i64)
    ensures
        swept(swept(table, now), now) == swept(table, now),
{
    assert(swept(swept(table, now), now) =~= swept(table, now));
}

/// The binding that a login wrote resolves, at a later request, to the
/// user as the store has it then, as long as the password hash is the one
/// of the login.
pub proof fn binding_resolves_to_its_user(users: Seq<UserRow>, user: int)
    requires
        distinct_users(users),
        0 <= user < users.len(),
    ensures
        requested(users, Some(binding_of(users[user]))) == (SessionState {
            user: Some(users[user]),
            pending: Pending::Nothing,
        }),
{
    let bound = binding_of(users[user]);
    let k = choose|k: int| 0 <= k < users.len() && binding_of(#[trigger] users[k]) == bound;
    assert(users[k].id == users[user].id);
    assert(k == user);
}

/// A binding whose user is gone, or whose password hash is no longer the
/// stored one, resolves to no user and ends the session.
pub proof fn stale_binding_ends_session(users: Seq<UserRow>, bound: BoundUser)
    requires
        forall|i: int|
            0 <= i < users.len() && (#[trigger] users[i]).id == bound.user_id
                ==> vstd::utf8::encode_utf8(users[i].password) != bound.auth_hash,
    ensures
        requested(users, Some(bound)) == (SessionState { user: None, pending: Pending::Delete }),
{
}

} // verus!
