use vstd::prelude::*;

use crate::ObjectId;
use crate::identity::{has_ident, ident_at};

verus! {

/// How long a session stays valid, in seconds, measured from its creation.
pub const SESSION_TTL_SECONDS: u64 = 600;

/// A time-bounded credential binding an opaque token to one identity.
pub struct Session {
    pub id: String,
    pub user_id: String,
}

impl Session {
    pub fn new(id: String, user_id: String) -> (s: Session)
        ensures
            s.id == id,
            s.user_id == user_id,
    {
        Session { id, user_id }
    }
}

impl Clone for Session {
    fn clone(&self) -> (s: Session)
        ensures
            s == *self,
    {
        Session { id: self.id.clone(), user_id: self.user_id.clone() }
    }
}

/// What a backend stores for one session: the credential itself and the
/// bounds of its validity window.
pub struct SessionRecord {
    pub session: Session,
    pub created_at: u64,
    pub expires_at: u64,
}

/// The abstract value of one stored session.
pub ghost struct SessionRecordV {
    pub token: Seq<char>,
    pub user_id: Seq<char>,
    pub created_at: u64,
    pub expires_at: u64,
}

impl View for SessionRecord {
    type V = SessionRecordV;

    open spec fn view(&self) -> SessionRecordV {
        SessionRecordV {
            token: self.session.id@,
            user_id: self.session.user_id@,
            created_at: self.created_at,
            expires_at: self.expires_at,
        }
    }
}

/// The closed error taxonomy of the session operations.
#[derive(Clone, Copy, Debug, PartialEq, Eq, Structural)]
pub enum SessionError {
    InvalidOrMissingSession,
    InternalServerError,
    ServiceUnavailable,
    InvalidLogin,
}

impl SessionError {
    /// The one HTTP status outcome each taxonomy member maps to at the
    /// transport boundary.
    pub open spec fn spec_status(&self) -> u16 {
        match self {
            SessionError::InternalServerError => 500,
            SessionError::InvalidOrMissingSession => 401,
            SessionError::InvalidLogin => 401,
            SessionError::ServiceUnavailable => 503,
        }
    }

    pub fn status_code(&self) -> (r: u16)
        ensures
            r == self.spec_status(),
    {
        match self {
            SessionError::InternalServerError => 500,
            SessionError::InvalidOrMissingSession => 401,
            SessionError::InvalidLogin => 401,
            SessionError::ServiceUnavailable => 503,
        }
    }
}

/// The body of a login request.
pub struct LoginRequest {
    pub username: String,
    pub password: String,
}

/// A successfully resolved request-scoped session: the identity the
/// presented token belongs to.
pub struct SessionRes<T> {
    pub inner: T,
}

/// A session token is stored.
pub open spec fn has_token(sessions: Seq<SessionRecordV>, token: Seq<char>) -> bool {
    exists|i: int| 0 <= i < sessions.len() && sessions[i].token == token
}

/// The position of the stored session with the given token.
pub open spec fn token_index(sessions: Seq<SessionRecordV>, token: Seq<char>) -> int {
    choose|i: int| 0 <= i < sessions.len() && sessions[i].token == token
}

/// The stored session with the given token.
pub open spec fn session_at(sessions: Seq<SessionRecordV>, token: Seq<char>) -> SessionRecordV {
    sessions[token_index(sessions, token)]
}

/// A stored session is live at the given time: the expiry deadline has
/// not been reached yet.
pub open spec fn session_live(rec: SessionRecordV, now: u64) -> bool {
    now < rec.expires_at
}

/// No two stored sessions carry the same token.
pub open spec fn unique_tokens(sessions: Seq<SessionRecordV>) -> bool {
    forall|i: int, j: int|
        #![trigger sessions[i].token, sessions[j].token]
        0 <= i < sessions.len() && 0 <= j < sessions.len() && i != j ==> sessions[i].token
            != sessions[j].token
}

/// A record matches the presented credentials.
pub open spec fn cred_match<T: ObjectId>(t: T, username: Seq<char>, password: Seq<char>) -> bool {
    t.spec_username() == username && t.spec_password() == password
}

/// Some stored record matches the presented credentials.
pub open spec fn some_cred_match<T: ObjectId>(
    idents: Seq<T>,
    username: Seq<char>,
    password: Seq<char>,
) -> bool {
    exists|i: int| 0 <= i < idents.len() && cred_match(#[trigger] idents[i], username, password)
}

/// What validating a token against a store returns: the owning identity
/// when the token is stored, live, and its owner exists; the exact error
/// otherwise. An absent or expired token is rejected the same way.
pub open spec fn spec_validate<T: ObjectId>(
    sessions: Seq<SessionRecordV>,
    idents: Seq<T>,
    token: Seq<char>,
    now: u64,
) -> Result<T, SessionError> {
    if !has_token(sessions, token) {
        Err(SessionError::InvalidOrMissingSession)
    } else if !session_live(session_at(sessions, token), now) {
        Err(SessionError::InvalidOrMissingSession)
    } else if !has_ident(idents, session_at(sessions, token).user_id) {
        Err(SessionError::InternalServerError)
    } else {
        Ok(ident_at(idents, session_at(sessions, token).user_id))
    }
}

/// With unique tokens, any index holding the token is the index the
/// lookup functions denote.
pub proof fn lemma_token_index_unique(sessions: Seq<SessionRecordV>, token: Seq<char>, i: int)
    requires
        unique_tokens(sessions),
        0 <= i < sessions.len(),
        sessions[i].token == token,
    ensures
        has_token(sessions, token),
        token_index(sessions, token) == i,
        session_at(sessions, token) == sessions[i],
{
    assert(has_token(sessions, token));
    let j = token_index(sessions, token);
    assert(0 <= j < sessions.len() && sessions[j].token == token);
    assert(j == i);
}

/// Law: a store of pairwise-distinct tokens extended with a token it does
/// not hold still holds pairwise-distinct tokens; every login step
/// preserves session-token uniqueness.
pub proof fn lemma_unique_tokens_push(sessions: Seq<SessionRecordV>, rec: SessionRecordV)
    requires
        unique_tokens(sessions),
        !has_token(sessions, rec.token),
    ensures
        unique_tokens(sessions.push(rec)),
{
    let post = sessions.push(rec);
    assert forall|i: int, j: int|
        #![trigger post[i].token, post[j].token]
        0 <= i < post.len() && 0 <= j < post.len() && i != j implies post[i].token
        != post[j].token by {
        if i < sessions.len() && j < sessions.len() {
            assert(post[i] == sessions[i]);
            assert(post[j] == sessions[j]);
        } else if i == sessions.len() {
            assert(post[j] == sessions[j]);
            if sessions[j].token == rec.token {
                assert(has_token(sessions, rec.token));
            }
        } else {
            assert(post[i] == sessions[i]);
            if sessions[i].token == rec.token {
                assert(has_token(sessions, rec.token));
            }
        }
    }
}

/// Law: a login step followed at once by a validation of the issued token
/// yields the identity the login matched, equal by identifier, as long as
/// the expiry deadline has not passed. The premises on the session store
/// are exactly what `login` ensures: the token was fresh and the record
/// was appended with the issuing time and deadline.
pub proof fn lemma_login_then_validate<T: ObjectId>(
    pre: Seq<SessionRecordV>,
    idents: Seq<T>,
    token: Seq<char>,
    uid: Seq<char>,
    now: u64,
    later: u64,
)
    requires
        unique_tokens(pre),
        !has_token(pre, token),
        has_ident(idents, uid),
        now + SESSION_TTL_SECONDS <= u64::MAX,
        later < now + SESSION_TTL_SECONDS,
    ensures
        spec_validate(
            pre.push(
                (SessionRecordV {
                    token: token,
                    user_id: uid,
                    created_at: now,
                    expires_at: (now + SESSION_TTL_SECONDS) as u64,
                }),
            ),
            idents,
            token,
            later,
        ) == Ok::<T, SessionError>(ident_at(idents, uid)),
        ident_at(idents, uid).spec_id() == Some(uid),
{
    let rec = SessionRecordV {
        token: token,
        user_id: uid,
        created_at: now,
        expires_at: (now + SESSION_TTL_SECONDS) as u64,
    };
    let post = pre.push(rec);
    lemma_unique_tokens_push(pre, rec);
    lemma_token_index_unique(post, token, post.len() - 1);
    let i = crate::identity::ident_index(idents, uid);
    assert(0 <= i < idents.len() && idents[i].spec_id() == Some(uid));
}

/// Law: a token that was never issued is rejected as an invalid or
/// missing session, whatever the identity store holds.
pub proof fn lemma_validate_unknown_token<T: ObjectId>(
    sessions: Seq<SessionRecordV>,
    idents: Seq<T>,
    token: Seq<char>,
    now: u64,
)
    requires
        !has_token(sessions, token),
    ensures
        spec_validate(sessions, idents, token, now) == Err::<T, SessionError>(
            SessionError::InvalidOrMissingSession,
        ),
{
}

/// Law: a session validated at or after its expiry deadline is rejected as
/// an invalid or missing session even though the record is still stored;
/// expiry is enforced by comparison, not by deletion.
pub proof fn lemma_validate_expired<T: ObjectId>(
    sessions: Seq<SessionRecordV>,
    idents: Seq<T>,
    token: Seq<char>,
    now: u64,
)
    requires
        has_token(sessions, token),
        now >= session_at(sessions, token).expires_at,
    ensures
        spec_validate(sessions, idents, token, now) == Err::<T, SessionError>(
            SessionError::InvalidOrMissingSession,
        ),
{
}

/// The session storage capability a backend must provide, over the same
/// identity store as its identity capability.
pub trait SessionBackend<T: ObjectId>: crate::identity::IdentityBackend<T> {
    /// The abstract session store an implementation is specified against.
    /// An implementation outside the verified world may leave it at the
    /// default, an arbitrary unmodeled state.
    open spec fn sessions(&self) -> Seq<SessionRecordV> {
        vstd::pervasive::arbitrary()
    }

    /// Verifies the presented credentials against the identity store and,
    /// on success, persists a new session under a token that no stored
    /// session carries, valid from `now` for `SESSION_TTL_SECONDS`.
    /// `InvalidLogin` exactly when the credentials match no identity.
    fn login(&mut self, username: String, password: String, now: u64) -> (r: Result<
        Session,
        SessionError,
    >)
        requires
            now + SESSION_TTL_SECONDS <= u64::MAX,
            crate::identity::unique_ids(old(self).idents()),
            unique_tokens(old(self).sessions()),
        ensures
            final(self).idents() == old(self).idents(),
            unique_tokens(final(self).sessions()),
            match r {
                Ok(s) => ({
                    &&& some_cred_match(old(self).idents(), username@, password@)
                    &&& has_ident(old(self).idents(), s.user_id@)
                    &&& cred_match(
                        ident_at(old(self).idents(), s.user_id@),
                        username@,
                        password@,
                    )
                    &&& !has_token(old(self).sessions(), s.id@)
                    &&& final(self).sessions() == old(self).sessions().push(
                        (SessionRecordV {
                            token: s.id@,
                            user_id: s.user_id@,
                            created_at: now,
                            expires_at: (now + SESSION_TTL_SECONDS) as u64,
                        }),
                    )
                }),
                Err(e) => ({
                    &&& final(self).sessions() == old(self).sessions()
                    &&& (e is InvalidLogin <==> !some_cred_match(
                        old(self).idents(),
                        username@,
                        password@,
                    ))
                    &&& (e is InvalidLogin || e is InternalServerError
                        || e is ServiceUnavailable)
                }),
            },
    ;

    /// Resolves a presented token to its owning identity, enforcing the
    /// expiry deadline at validation time.
    fn validate(&self, session_id: String, now: u64) -> (r: Result<T, SessionError>)
        requires
            crate::identity::unique_ids(self.idents()),
            unique_tokens(self.sessions()),
        ensures
            r == spec_validate(self.sessions(), self.idents(), session_id@, now),
    ;
}

/// The session facade: the verified login and validation surface over a
/// pluggable session backend. It holds transport configuration only; the
/// shared backend handle is passed into each call.
pub struct SessionProvider {
    pub login_path: String,
    pub validate_path: String,
}

impl SessionProvider {
    pub fn new() -> (r: SessionProvider)
        ensures
            r.login_path@ == "session/login"@,
            r.validate_path@ == "session/validate"@,
    {
        SessionProvider {
            login_path: "session/login".to_owned(),
            validate_path: "session/validate".to_owned(),
        }
    }

    /// Verifies the credentials and persists a fresh session.
    pub fn login<T: ObjectId, B: SessionBackend<T>>(
        &self,
        backend: &mut B,
        username: String,
        password: String,
        now: u64,
    ) -> (r: Result<Session, SessionError>)
        requires
            now + SESSION_TTL_SECONDS <= u64::MAX,
            crate::identity::unique_ids(old(backend).idents()),
            unique_tokens(old(backend).sessions()),
        ensures
            final(backend).idents() == old(backend).idents(),
            unique_tokens(final(backend).sessions()),
            match r {
                Ok(s) => ({
                    &&& some_cred_match(old(backend).idents(), username@, password@)
                    &&& has_ident(old(backend).idents(), s.user_id@)
                    &&& cred_match(
                        ident_at(old(backend).idents(), s.user_id@),
                        username@,
                        password@,
                    )
                    &&& !has_token(old(backend).sessions(), s.id@)
                    &&& final(backend).sessions() == old(backend).sessions().push(
                        (SessionRecordV {
                            token: s.id@,
                            user_id: s.user_id@,
                            created_at: now,
                            expires_at: (now + SESSION_TTL_SECONDS) as u64,
                        }),
                    )
                }),
                Err(e) => ({
                    &&& final(backend).sessions() == old(backend).sessions()
                    &&& (e is InvalidLogin <==> !some_cred_match(
                        old(backend).idents(),
                        username@,
                        password@,
                    ))
                    &&& (e is InvalidLogin || e is InternalServerError || e is ServiceUnavailable)
                }),
            },
    {
        backend.login(username, password, now)
    }

    /// Resolves a presented token; each call re-checks the backend, so
    /// expiry takes effect immediately.
    pub fn validate<T: ObjectId, B: SessionBackend<T>>(
        &self,
        backend: &B,
        session_id: String,
        now: u64,
    ) -> (r: Result<T, SessionError>)
        requires
            crate::identity::unique_ids(backend.idents()),
            unique_tokens(backend.sessions()),
        ensures
            r == spec_validate(backend.sessions(), backend.idents(), session_id@, now),
    {
        backend.validate(session_id, now)
    }

    /// The request-scoped session resolver: the only path that turns a raw
    /// transport credential into a trusted identity. A missing credential is
    /// rejected at once, without a backend call, exactly like an invalid one.
    pub fn resolve<T: ObjectId, B: SessionBackend<T>>(
        &self,
        backend: &B,
        cookie: Option<String>,
        now: u64,
    ) -> (r: Result<SessionRes<T>, SessionError>)
        requires
            crate::identity::unique_ids(backend.idents()),
            unique_tokens(backend.sessions()),
        ensures
            match cookie {
                None => r matches Err(SessionError::InvalidOrMissingSession),
                Some(token) => match r {
                    Ok(sr) => spec_validate(backend.sessions(), backend.idents(), token@, now)
                        == Ok::<T, SessionError>(sr.inner),
                    Err(e) => spec_validate(backend.sessions(), backend.idents(), token@, now)
                        == Err::<T, SessionError>(e),
                },
            },
    {
        match cookie {
            None => Err(SessionError::InvalidOrMissingSession),
            Some(token) => match self.validate(backend, token, now) {
                Ok(t) => Ok(SessionRes { inner: t }),
                Err(e) => Err(e),
            },
        }
    }
}

/// What the transport sets as the session credential after a successful
/// login: a cookie bound to the whole site, expiring with the session.
pub struct SessionCookie {
    pub name: String,
    pub value: String,
    pub path: String,
    pub expires_at: u64,
}

/// The login endpoint: 200 with the session cookie exactly when the
/// credentials matched and the session was persisted.
pub fn handle_login<T: ObjectId, B: SessionBackend<T>>(
    provider: &SessionProvider,
    backend: &mut B,
    request: LoginRequest,
    now: u64,
) -> (r: (u16, Option<SessionCookie>))
    requires
        now + SESSION_TTL_SECONDS <= u64::MAX,
        crate::identity::unique_ids(old(backend).idents()),
        unique_tokens(old(backend).sessions()),
    ensures
        final(backend).idents() == old(backend).idents(),
        unique_tokens(final(backend).sessions()),
        r.0 == 200 <==> r.1 is Some,
        match r.1 {
            Some(c) => ({
                &&& c.name@ == "sessionId"@
                &&& c.path@ == "/"@
                &&& c.expires_at == now + SESSION_TTL_SECONDS
                &&& some_cred_match(old(backend).idents(), request.username@, request.password@)
                &&& !has_token(old(backend).sessions(), c.value@)
                &&& exists|uid: Seq<char>|
                    #![auto]
                    {
                        &&& has_ident(old(backend).idents(), uid)
                        &&& cred_match(
                            ident_at(old(backend).idents(), uid),
                            request.username@,
                            request.password@,
                        )
                        &&& final(backend).sessions() == old(backend).sessions().push(
                            (SessionRecordV {
                                token: c.value@,
                                user_id: uid,
                                created_at: now,
                                expires_at: (now + SESSION_TTL_SECONDS) as u64,
                            }),
                        )
                    }
            }),
            None => ({
                &&& final(backend).sessions() == old(backend).sessions()
                &&& (r.0 == 401 || r.0 == 500 || r.0 == 503)
                &&& (r.0 == 401 <==> !some_cred_match(
                    old(backend).idents(),
                    request.username@,
                    request.password@,
                ))
            }),
        },
{
    match provider.login(backend, request.username, request.password, now) {
        Ok(s) => {
            let c = SessionCookie {
                name: "sessionId".to_owned(),
                value: s.id,
                path: "/".to_owned(),
                expires_at: now + SESSION_TTL_SECONDS,
            };
            (200, Some(c))
        },
        Err(e) => (e.status_code(), None),
    }
}

/// The validation endpoint: a resolved session is answered with the full
/// identity it belongs to (this endpoint reports the caller's own record).
pub fn handle_validate<T: ObjectId>(session: SessionRes<T>) -> (r: (u16, T))
    ensures
        r.0 == 200,
        r.1 == session.inner,
{
    (200, session.inner)
}

} // verus!
