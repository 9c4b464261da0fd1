use vstd::prelude::*;

use crate::session::SessionRes;
use crate::{IntoPublic, ObjectId};

verus! {

/// The closed error taxonomy of the identity operations; raw backend
/// errors never cross the facade boundary.
#[derive(Clone, Copy, Debug, PartialEq, Eq, Structural)]
pub enum IdentityError {
    NotFound,
    InternalServerError,
    ServiceUnavailable,
    Unauthorized,
    InvalidId,
}

impl IdentityError {
    /// The one HTTP status outcome each taxonomy member maps to at the
    /// transport boundary.
    pub open spec fn spec_status(&self) -> u16 {
        match self {
            IdentityError::NotFound => 404,
            IdentityError::InternalServerError => 500,
            IdentityError::ServiceUnavailable => 503,
            IdentityError::Unauthorized => 401,
            IdentityError::InvalidId => 400,
        }
    }

    pub fn status_code(&self) -> (r: u16)
        ensures
            r == self.spec_status(),
    {
        match self {
            IdentityError::NotFound => 404,
            IdentityError::InternalServerError => 500,
            IdentityError::ServiceUnavailable => 503,
            IdentityError::Unauthorized => 401,
            IdentityError::InvalidId => 400,
        }
    }
}

/// The path parameter of the `/identity/{id}` routes.
pub struct IdentityGetPath {
    pub id: String,
}

/// An ASCII hexadecimal digit, in either case.
pub open spec fn is_hex_digit_byte(b: u8) -> bool {
    (48 <= b && b <= 57) || (97 <= b && b <= 102) || (65 <= b && b <= 70)
}

/// The byte an identifier carries at the given position: a hyphen at the
/// four separator positions, a hexadecimal digit everywhere else.
pub open spec fn is_id_byte(i: int, b: u8) -> bool {
    if i == 8 || i == 13 || i == 18 || i == 23 {
        b == 45
    } else {
        is_hex_digit_byte(b)
    }
}

/// A well-formed identifier: the 36-character hyphenated hexadecimal form
/// the backend assigns. Anything else is malformed and rejected as
/// `InvalidId` before any backend call.
pub open spec fn valid_id(s: Seq<char>) -> bool {
    &&& s.len() == 36
    &&& vstd::utf8::is_ascii_chars(s)
    &&& forall|i: int| 0 <= i < s.len() ==> is_id_byte(i, (#[trigger] s[i]) as u8)
}

/// Whether a presented identifier is well-formed (see `valid_id`).
pub fn check_id(id: &String) -> (r: bool)
    ensures
        r == valid_id(id@),
{
    let s = id.as_str();
    if !s.is_ascii() {
        return false;
    }
    proof {
        vstd::string::is_ascii_spec_bytes(s);
    }
    let b = s.as_bytes();
    if b.len() != 36 {
        return false;
    }
    let mut i: usize = 0;
    while i < 36
        invariant
            i <= 36,
            b@.len() == 36,
            id@.len() == 36,
            vstd::utf8::is_ascii_chars(id@),
            forall|k: int| 0 <= k < 36 ==> b@[k] == (#[trigger] id@[k]) as u8,
            forall|k: int| 0 <= k < i ==> is_id_byte(k, (#[trigger] id@[k]) as u8),
        decreases 36 - i,
    {
        let c = b[i];
        let ok = if i == 8 || i == 13 || i == 18 || i == 23 {
            c == 45
        } else {
            (48 <= c && c <= 57) || (97 <= c && c <= 102) || (65 <= c && c <= 70)
        };
        if !ok {
            proof {
                assert(!is_id_byte(i as int, id@[i as int] as u8));
            }
            return false;
        }
        i += 1;
    }
    true
}

/// There is a record with the given identifier.
pub open spec fn has_ident<T: ObjectId>(idents: Seq<T>, id: Seq<char>) -> bool {
    exists|i: int| 0 <= i < idents.len() && idents[i].spec_id() == Some(id)
}

/// The position of a record with the given identifier.
pub open spec fn ident_index<T: ObjectId>(idents: Seq<T>, id: Seq<char>) -> int {
    choose|i: int| 0 <= i < idents.len() && idents[i].spec_id() == Some(id)
}

/// The record with the given identifier.
pub open spec fn ident_at<T: ObjectId>(idents: Seq<T>, id: Seq<char>) -> T {
    idents[ident_index(idents, id)]
}

/// Every stored record carries an identifier, and no two records carry
/// the same one.
pub open spec fn unique_ids<T: ObjectId>(idents: Seq<T>) -> bool {
    &&& forall|i: int| 0 <= i < idents.len() ==> (#[trigger] idents[i].spec_id()) is Some
    &&& forall|i: int, j: int|
        #![trigger idents[i].spec_id(), idents[j].spec_id()]
        0 <= i < idents.len() && 0 <= j < idents.len() && i != j ==> idents[i].spec_id()
            != idents[j].spec_id()
}

/// With unique identifiers, any index holding the identifier is the index
/// the lookup functions denote.
pub proof fn lemma_ident_index_unique<T: ObjectId>(idents: Seq<T>, id: Seq<char>, i: int)
    requires
        unique_ids(idents),
        0 <= i < idents.len(),
        idents[i].spec_id() == Some(id),
    ensures
        has_ident(idents, id),
        ident_index(idents, id) == i,
        ident_at(idents, id) == idents[i],
{
    assert(has_ident(idents, id));
    let j = ident_index(idents, id);
    assert(0 <= j < idents.len() && idents[j].spec_id() == Some(id));
    assert(j == i);
}

/// Law: a record stored by a creation step is found again under the
/// identifier assigned to it, equal to the input in every field but the
/// server-assigned identifier. The premises are exactly what `create`
/// ensures of a store `pre` it turned into `post` for an `input` record.
pub proof fn lemma_create_then_get_by_id<T: ObjectId>(pre: Seq<T>, post: Seq<T>, input: T)
    requires
        unique_ids(post),
        post.len() == pre.len() + 1,
        post.take(pre.len() as int) == pre,
        post.last().spec_id() is Some,
        !has_ident(pre, post.last().spec_id().unwrap()),
        post.last().spec_username() == input.spec_username(),
        post.last().spec_password() == input.spec_password(),
    ensures
        has_ident(post, post.last().spec_id().unwrap()),
        ident_at(post, post.last().spec_id().unwrap()) == post.last(),
        ident_at(post, post.last().spec_id().unwrap()).spec_username() == input.spec_username(),
        ident_at(post, post.last().spec_id().unwrap()).spec_password() == input.spec_password(),
{
    lemma_ident_index_unique(post, post.last().spec_id().unwrap(), post.len() - 1);
}

/// Law: the identifiers assigned by two successive creation steps are
/// distinct: each is fresh against the store it was assigned in, and the
/// first record is still stored when the second is assigned. The premises
/// are what `create` ensures of the steps `s0` to `s1` and `s1` to `s2`.
pub proof fn lemma_create_assigns_distinct_ids<T: ObjectId>(s0: Seq<T>, s1: Seq<T>, s2: Seq<T>)
    requires
        s1.len() == s0.len() + 1,
        s1.take(s0.len() as int) == s0,
        s1.last().spec_id() is Some,
        s2.len() == s1.len() + 1,
        s2.take(s1.len() as int) == s1,
        s2.last().spec_id() is Some,
        !has_ident(s1, s2.last().spec_id().unwrap()),
    ensures
        s2.last().spec_id() != s1.last().spec_id(),
{
    let id2 = s2.last().spec_id().unwrap();
    if s1.last().spec_id() == s2.last().spec_id() {
        assert(s1[s1.len() - 1].spec_id() == Some(id2));
        assert(has_ident(s1, id2));
        assert(false);
    }
}

/// The identity storage capability a backend must provide. The abstract
/// state is the sequence of stored records, in insertion order.
pub trait IdentityBackend<T: ObjectId>: Sized {
    /// The abstract store contents an implementation is specified against.
    /// An implementation outside the verified world may leave it at the
    /// default, an arbitrary unmodeled state.
    open spec fn idents(&self) -> Seq<T> {
        vstd::pervasive::arbitrary()
    }

    /// Lists every stored record; on success the result is exactly the
    /// store's contents.
    fn get_all(&self) -> (r: Result<Vec<T>, IdentityError>)
        ensures
            match r {
                Ok(v) => v@ == self.idents(),
                Err(e) => e is ServiceUnavailable || e is InternalServerError,
            },
    ;

    /// Appends the given record under a server-assigned identifier that no
    /// stored record carries, overwriting any client-supplied identifier;
    /// all other fields of the record are kept.
    fn create(&mut self, identity: T) -> (r: Result<(), IdentityError>)
        requires
            unique_ids(old(self).idents()),
        ensures
            unique_ids(final(self).idents()),
            match r {
                Ok(_) => ({
                    &&& final(self).idents().len() == old(self).idents().len() + 1
                    &&& final(self).idents().take(old(self).idents().len() as int) == old(self).idents()
                    &&& final(self).idents().last().spec_id() is Some
                    &&& !has_ident(old(self).idents(), final(self).idents().last().spec_id().unwrap())
                    &&& final(self).idents().last().spec_username() == identity.spec_username()
                    &&& final(self).idents().last().spec_password() == identity.spec_password()
                }),
                Err(e) => final(self).idents() == old(self).idents() && (e is ServiceUnavailable
                    || e is InternalServerError),
            },
    ;

    /// Returns the record with the given identifier; `NotFound` exactly
    /// when no such record is stored.
    fn get_by_id(&self, id: String) -> (r: Result<T, IdentityError>)
        requires
            unique_ids(self.idents()),
        ensures
            match r {
                Ok(t) => has_ident(self.idents(), id@) && t == ident_at(self.idents(), id@),
                Err(e) => ({
                    &&& (e is NotFound <==> !has_ident(self.idents(), id@))
                    &&& (e is NotFound || e is ServiceUnavailable || e is InternalServerError)
                }),
            },
    ;

    /// Replaces the record with the given identifier by the given record;
    /// the stored identifier is kept, every other field comes from the
    /// payload; `NotFound` exactly when no such record is stored.
    fn update_by_id(&mut self, id: String, identity: T) -> (r: Result<(), IdentityError>)
        requires
            unique_ids(old(self).idents()),
        ensures
            unique_ids(final(self).idents()),
            match r {
                Ok(_) => (exists|i: int|
                    {
                        &&& 0 <= i < old(self).idents().len()
                        &&& (#[trigger] old(self).idents()[i].spec_id()) == Some(id@)
                        &&& final(self).idents().len() == old(self).idents().len()
                        &&& final(self).idents()[i].spec_id() == Some(id@)
                        &&& final(self).idents()[i].spec_username() == identity.spec_username()
                        &&& final(self).idents()[i].spec_password() == identity.spec_password()
                        &&& forall|j: int|
                            0 <= j < old(self).idents().len() && j != i ==> final(self).idents()[j]
                                == #[trigger] old(self).idents()[j]
                    }),
                Err(e) => ({
                    &&& final(self).idents() == old(self).idents()
                    &&& (e is NotFound <==> !has_ident(old(self).idents(), id@))
                    &&& (e is NotFound || e is ServiceUnavailable || e is InternalServerError)
                }),
            },
    ;

    /// Removes the record with the given identifier; `NotFound` exactly
    /// when no such record is stored, and nothing is removed then.
    fn delete_by_id(&mut self, id: String) -> (r: Result<(), IdentityError>)
        requires
            unique_ids(old(self).idents()),
        ensures
            unique_ids(final(self).idents()),
            match r {
                Ok(_) => (exists|i: int|
                    {
                        &&& 0 <= i < old(self).idents().len()
                        &&& (#[trigger] old(self).idents()[i].spec_id()) == Some(id@)
                        &&& final(self).idents() == old(self).idents().remove(i)
                    }),
                Err(e) => ({
                    &&& final(self).idents() == old(self).idents()
                    &&& (e is NotFound <==> !has_ident(old(self).idents(), id@))
                    &&& (e is NotFound || e is ServiceUnavailable || e is InternalServerError)
                }),
            },
    ;
}

/// The identity facade: the verified CRUD surface over a pluggable identity
/// backend. It holds transport configuration only; the shared backend
/// handle is passed into each call.
pub struct IdentityProvider {
    pub identity_base_path: String,
}

impl IdentityProvider {
    pub fn new() -> (r: IdentityProvider)
        ensures
            r.identity_base_path@ == "identity"@,
    {
        IdentityProvider { identity_base_path: "identity".to_owned() }
    }

    /// Lists every stored record.
    pub fn get_all<T: ObjectId, B: IdentityBackend<T>>(&self, backend: &B) -> (r: Result<
        Vec<T>,
        IdentityError,
    >)
        ensures
            match r {
                Ok(v) => v@ == backend.idents(),
                Err(e) => e is ServiceUnavailable || e is InternalServerError,
            },
    {
        backend.get_all()
    }

    /// Stores a record under a fresh server-assigned identifier; any
    /// client-supplied identifier is stripped.
    pub fn create<T: ObjectId, B: IdentityBackend<T>>(&self, backend: &mut B, identity: T) -> (r:
        Result<(), IdentityError>)
        requires
            unique_ids(old(backend).idents()),
        ensures
            unique_ids(final(backend).idents()),
            match r {
                Ok(_) => ({
                    &&& final(backend).idents().len() == old(backend).idents().len() + 1
                    &&& final(backend).idents().take(old(backend).idents().len() as int) == old(backend).idents()
                    &&& final(backend).idents().last().spec_id() is Some
                    &&& !has_ident(
                        old(backend).idents(),
                        final(backend).idents().last().spec_id().unwrap(),
                    )
                    &&& final(backend).idents().last().spec_username() == identity.spec_username()
                    &&& final(backend).idents().last().spec_password() == identity.spec_password()
                }),
                Err(e) => final(backend).idents() == old(backend).idents() && (
                e is ServiceUnavailable || e is InternalServerError),
            },
    {
        backend.create(identity)
    }

    /// Returns the record with the given identifier; a malformed identifier
    /// is rejected as `InvalidId` before any backend call.
    pub fn get_by_id<T: ObjectId, B: IdentityBackend<T>>(&self, backend: &B, id: String) -> (r:
        Result<T, IdentityError>)
        requires
            unique_ids(backend.idents()),
        ensures
            !valid_id(id@) ==> r == Err::<T, IdentityError>(IdentityError::InvalidId),
            valid_id(id@) ==> match r {
                Ok(t) => has_ident(backend.idents(), id@) && t == ident_at(backend.idents(), id@),
                Err(e) => ({
                    &&& (e is NotFound <==> !has_ident(backend.idents(), id@))
                    &&& (e is NotFound || e is ServiceUnavailable || e is InternalServerError)
                }),
            },
    {
        if !check_id(&id) {
            return Err(IdentityError::InvalidId);
        }
        backend.get_by_id(id)
    }

    /// Replaces the record with the given identifier; a malformed identifier
    /// is rejected as `InvalidId` before any backend call.
    pub fn update<T: ObjectId, B: IdentityBackend<T>>(
        &self,
        backend: &mut B,
        id: String,
        identity: T,
    ) -> (r: Result<(), IdentityError>)
        requires
            unique_ids(old(backend).idents()),
        ensures
            unique_ids(final(backend).idents()),
            !valid_id(id@) ==> r == Err::<(), IdentityError>(IdentityError::InvalidId) && final(backend).idents() == old(backend).idents(),
            valid_id(id@) ==> match r {
                Ok(_) => (exists|i: int|
                    {
                        &&& 0 <= i < old(backend).idents().len()
                        &&& (#[trigger] old(backend).idents()[i].spec_id()) == Some(id@)
                        &&& final(backend).idents().len() == old(backend).idents().len()
                        &&& final(backend).idents()[i].spec_id() == Some(id@)
                        &&& final(backend).idents()[i].spec_username()
                            == identity.spec_username()
                        &&& final(backend).idents()[i].spec_password()
                            == identity.spec_password()
                        &&& forall|j: int|
                            0 <= j < old(backend).idents().len() && j != i ==> final(backend).idents()[j] == #[trigger] old(backend).idents()[j]
                    }),
                Err(e) => ({
                    &&& final(backend).idents() == old(backend).idents()
                    &&& (e is NotFound <==> !has_ident(old(backend).idents(), id@))
                    &&& (e is NotFound || e is ServiceUnavailable || e is InternalServerError)
                }),
            },
    {
        if !check_id(&id) {
            return Err(IdentityError::InvalidId);
        }
        backend.update_by_id(id, identity)
    }

    /// Removes the record with the given identifier; a malformed identifier
    /// is rejected as `InvalidId` before any backend call.
    pub fn delete<T: ObjectId, B: IdentityBackend<T>>(&self, backend: &mut B, id: String) -> (r:
        Result<(), IdentityError>)
        requires
            unique_ids(old(backend).idents()),
        ensures
            unique_ids(final(backend).idents()),
            !valid_id(id@) ==> r == Err::<(), IdentityError>(IdentityError::InvalidId) && final(backend).idents() == old(backend).idents(),
            valid_id(id@) ==> match r {
                Ok(_) => (exists|i: int|
                    {
                        &&& 0 <= i < old(backend).idents().len()
                        &&& (#[trigger] old(backend).idents()[i].spec_id()) == Some(id@)
                        &&& final(backend).idents() == old(backend).idents().remove(i)
                    }),
                Err(e) => ({
                    &&& final(backend).idents() == old(backend).idents()
                    &&& (e is NotFound <==> !has_ident(old(backend).idents(), id@))
                    &&& (e is NotFound || e is ServiceUnavailable || e is InternalServerError)
                }),
            },
    {
        if !check_id(&id) {
            return Err(IdentityError::InvalidId);
        }
        backend.delete_by_id(id)
    }
}

/// The resolved session's identity is the one the request targets: the
/// authorization rule every identity-mutating route enforces.
pub open spec fn owns_target<T: ObjectId>(t: T, id: Seq<char>) -> bool {
    t.spec_id() == Some(id)
}

/// The list endpoint: every stored record, each through the public-view
/// projection; no raw record reaches the network.
pub fn handle_get_all<T: ObjectId + IntoPublic, B: IdentityBackend<T>>(
    provider: &IdentityProvider,
    backend: &B,
) -> (r: (u16, Option<Vec<<T as IntoPublic>::Public>>))
    ensures
        match r.1 {
            Some(ps) => r.0 == 200 && ps@ == Seq::new(
                backend.idents().len(),
                |i: int| backend.idents()[i].spec_public(),
            ),
            None => r.0 == 503 || r.0 == 500,
        },
{
    match provider.get_all(backend) {
        Err(e) => (e.status_code(), None),
        Ok(v) => {
            let ghost all = v@;
            let mut v = v;
            let mut out: Vec<<T as IntoPublic>::Public> = Vec::new();
            while v.len() > 0
                invariant
                    out@.len() + v@.len() == all.len(),
                    forall|j: int| 0 <= j < out@.len() ==> out@[j] == (#[trigger] all[j]).spec_public(),
                    forall|j: int| 0 <= j < v@.len() ==> #[trigger] v@[j] == all[out@.len() + j],
                decreases v@.len(),
            {
                let t = v.remove(0);
                out.push(t.into_public());
            }
            proof {
                assert(out@ =~= Seq::new(
                    backend.idents().len(),
                    |i: int| backend.idents()[i].spec_public(),
                ));
            }
            (200, Some(out))
        },
    }
}

/// The creation endpoint: 201 exactly when the record was stored under a
/// fresh identifier.
pub fn handle_create<T: ObjectId, B: IdentityBackend<T>>(
    provider: &IdentityProvider,
    backend: &mut B,
    identity: T,
) -> (r: u16)
    requires
        unique_ids(old(backend).idents()),
    ensures
        unique_ids(final(backend).idents()),
        r == 201 || r == 500 || r == 503,
        r != 201 ==> final(backend).idents() == old(backend).idents(),
        r == 201 ==> ({
            &&& final(backend).idents().len() == old(backend).idents().len() + 1
            &&& final(backend).idents().take(old(backend).idents().len() as int) == old(backend).idents()
            &&& final(backend).idents().last().spec_id() is Some
            &&& !has_ident(
                old(backend).idents(),
                final(backend).idents().last().spec_id().unwrap(),
            )
            &&& final(backend).idents().last().spec_username() == identity.spec_username()
            &&& final(backend).idents().last().spec_password() == identity.spec_password()
        }),
{
    match provider.create(backend, identity) {
        Ok(_) => 201,
        Err(e) => e.status_code(),
    }
}

/// The single-record read endpoint: the record through the public-view
/// projection, 404 exactly when the identifier is unknown, 400 when it is
/// malformed.
pub fn handle_get_by_id<T: ObjectId + IntoPublic, B: IdentityBackend<T>>(
    provider: &IdentityProvider,
    backend: &B,
    path: &IdentityGetPath,
) -> (r: (u16, Option<<T as IntoPublic>::Public>))
    requires
        unique_ids(backend.idents()),
    ensures
        !valid_id(path.id@) ==> r.0 == 400 && r.1 is None,
        valid_id(path.id@) ==> match r.1 {
            Some(p) => r.0 == 200 && has_ident(backend.idents(), path.id@) && p == ident_at(
                backend.idents(),
                path.id@,
            ).spec_public(),
            None => ({
                &&& (r.0 == 404 <==> !has_ident(backend.idents(), path.id@))
                &&& (r.0 == 404 || r.0 == 500 || r.0 == 503)
            }),
        },
{
    match provider.get_by_id(backend, path.id.clone()) {
        Ok(t) => (200, Some(t.into_public())),
        Err(e) => (e.status_code(), None),
    }
}

/// The update endpoint. The ownership check comes first and fails closed:
/// without a resolved session owning the target, nothing reaches the
/// backend and 401 is returned.
pub fn handle_update_by_id<T: ObjectId, B: IdentityBackend<T>>(
    provider: &IdentityProvider,
    backend: &mut B,
    path: &IdentityGetPath,
    identity: T,
    session: &SessionRes<T>,
) -> (r: u16)
    requires
        unique_ids(old(backend).idents()),
    ensures
        unique_ids(final(backend).idents()),
        r == 401 <==> !owns_target(session.inner, path.id@),
        r != 200 ==> final(backend).idents() == old(backend).idents(),
        owns_target(session.inner, path.id@) ==> ({
            &&& (!valid_id(path.id@) ==> r == 400)
            &&& (valid_id(path.id@) ==> ({
                &&& (r == 200 || r == 404 || r == 500 || r == 503)
                &&& (r == 404 <==> !has_ident(old(backend).idents(), path.id@))
                &&& (r == 200 ==> (exists|i: int|
                    {
                        &&& 0 <= i < old(backend).idents().len()
                        &&& (#[trigger] old(backend).idents()[i].spec_id()) == Some(path.id@)
                        &&& final(backend).idents().len() == old(backend).idents().len()
                        &&& final(backend).idents()[i].spec_id() == Some(path.id@)
                        &&& final(backend).idents()[i].spec_username()
                            == identity.spec_username()
                        &&& final(backend).idents()[i].spec_password()
                            == identity.spec_password()
                        &&& forall|j: int|
                            0 <= j < old(backend).idents().len() && j != i ==> final(backend).idents()[j] == #[trigger] old(backend).idents()[j]
                    }))
            }))
        }),
{
    let authorized = match session.inner.id() {
        Some(aid) => aid == path.id,
        None => false,
    };
    if !authorized {
        return 401;
    }
    match provider.update(backend, path.id.clone(), identity) {
        Ok(_) => 200,
        Err(e) => e.status_code(),
    }
}

/// The delete endpoint. The ownership check comes first and fails closed;
/// 404 exactly when the identifier is unknown, never a false 204.
pub fn handle_delete_by_id<T: ObjectId, B: IdentityBackend<T>>(
    provider: &IdentityProvider,
    backend: &mut B,
    path: &IdentityGetPath,
    session: &SessionRes<T>,
) -> (r: u16)
    requires
        unique_ids(old(backend).idents()),
    ensures
        unique_ids(final(backend).idents()),
        r == 401 <==> !owns_target(session.inner, path.id@),
        r != 204 ==> final(backend).idents() == old(backend).idents(),
        owns_target(session.inner, path.id@) ==> ({
            &&& (!valid_id(path.id@) ==> r == 400)
            &&& (valid_id(path.id@) ==> ({
                &&& (r == 204 || r == 404 || r == 500 || r == 503)
                &&& (r == 404 <==> !has_ident(old(backend).idents(), path.id@))
                &&& (r == 204 ==> (exists|i: int|
                    {
                        &&& 0 <= i < old(backend).idents().len()
                        &&& (#[trigger] old(backend).idents()[i].spec_id()) == Some(path.id@)
                        &&& final(backend).idents() == old(backend).idents().remove(i)
                    }))
            }))
        }),
{
    let authorized = match session.inner.id() {
        Some(aid) => aid == path.id,
        None => false,
    };
    if !authorized {
        return 401;
    }
    match provider.delete(backend, path.id.clone()) {
        Ok(_) => 204,
        Err(e) => e.status_code(),
    }
}

} // verus!
