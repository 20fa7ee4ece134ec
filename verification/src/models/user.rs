//! The public identity of a user.

use vstd::prelude::*;

verus! {

/// A user as shown to the outside: the identifier, the name and the email,
/// never the password hash.
#[derive(Clone, Debug, PartialEq, Eq)]
pub struct UserModel {
    pub id: u128,
    pub name: String,
    pub email: String,
}

/// The mathematical value of a [`UserModel`].
pub struct UserIdentity {
    pub id: u128,
    pub name: Seq<char>,
    pub email: Seq<char>,
}

impl View for UserModel {
    type V = UserIdentity;

    open spec fn view(&self) -> UserIdentity {
        UserIdentity { id: self.id, name: self.name@, email: self.email@ }
    }
}

} // verus!
