use vstd::prelude::*;

use crate::{IntoPublic, ObjectId};

verus! {

/// The reference identity record: a username and the password a login is
/// checked against, under a server-assigned identifier.
pub struct User {
    pub id: Option<String>,
    pub username: String,
    pub password: String,
}

/// The projection of a `User` that read endpoints return: the password
/// is omitted.
pub struct PublicUser {
    pub id: Option<String>,
    pub username: String,
}

impl ObjectId for User {
    open spec fn spec_id(&self) -> Option<Seq<char>> {
        self.id.deep_view()
    }

    open spec fn spec_username(&self) -> Seq<char> {
        self.username@
    }

    open spec fn spec_password(&self) -> Seq<char> {
        self.password@
    }

    fn id(&self) -> (r: Option<String>) {
        match &self.id {
            Some(s) => Some(s.clone()),
            None => None,
        }
    }

    fn set_id(&mut self, id: String) {
        self.id = Some(id);
    }

    fn username(&self) -> (r: String) {
        self.username.clone()
    }

    fn password(&self) -> (r: String) {
        self.password.clone()
    }

    fn duplicate(&self) -> (r: Self) {
        let id = match &self.id {
            Some(s) => Some(s.clone()),
            None => None,
        };
        User { id, username: self.username.clone(), password: self.password.clone() }
    }
}

/// Law: the public view of a user carries exactly the identifier and the
/// username; the password is not part of the projected type at all.
pub proof fn lemma_public_view_omits_password(u: User)
    ensures
        u.spec_public() == (PublicUser { id: u.id, username: u.username }),
{
}

impl IntoPublic for User {
    type Public = PublicUser;

    open spec fn spec_public(self) -> PublicUser {
        PublicUser { id: self.id, username: self.username }
    }

    fn into_public(self) -> (r: PublicUser) {
        PublicUser { id: self.id, username: self.username }
    }
}

} // verus!
