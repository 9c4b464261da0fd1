//! An authentication and identity substrate for HTTP services: it issues
//! and validates opaque session tokens and exposes CRUD operations over an
//! application-supplied identity record, delegating persistence to a
//! pluggable storage backend. The facades, the backend contract, the
//! session lifecycle (issue, validate, expire) and the ownership rule
//! gating every mutation are verified; transport plumbing and storage
//! drivers stay outside the library.

use vstd::prelude::*;

pub mod identity;
pub mod memory;
pub mod provider;
pub mod session;
pub mod users;

verus! {

/// The capability an application identity record must expose: a unique,
/// server-assigned identifier, and the credential fields a login is
/// authorized against.
pub trait ObjectId: Sized {
    spec fn spec_id(&self) -> Option<Seq<char>>;

    spec fn spec_username(&self) -> Seq<char>;

    spec fn spec_password(&self) -> Seq<char>;

    fn id(&self) -> (r: Option<String>)
        ensures
            r.deep_view() == self.spec_id(),
    ;

    fn set_id(&mut self, id: String)
        ensures
            final(self).spec_id() == Some(id@),
            final(self).spec_username() == old(self).spec_username(),
            final(self).spec_password() == old(self).spec_password(),
    ;

    fn username(&self) -> (r: String)
        ensures
            r@ == self.spec_username(),
    ;

    fn password(&self) -> (r: String)
        ensures
            r@ == self.spec_password(),
    ;

    /// An exact copy; a backend stores and hands out owned records.
    fn duplicate(&self) -> (r: Self)
        ensures
            r == *self,
    ;
}

/// The projection applied to every identity record before it is returned
/// to the network by a read endpoint; it omits the secret fields.
pub trait IntoPublic: Sized {
    type Public;

    spec fn spec_public(self) -> Self::Public;

    fn into_public(self) -> (r: Self::Public)
        ensures
            r == self.spec_public(),
    ;
}

} // verus!
