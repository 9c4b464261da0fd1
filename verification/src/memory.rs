use vstd::prelude::*;

use crate::ObjectId;
use crate::identity::{
    IdentityBackend, IdentityError, has_ident, lemma_ident_index_unique, unique_ids,
};
use crate::session::{
    SESSION_TTL_SECONDS, Session, SessionBackend, SessionError, SessionRecord, SessionRecordV,
    cred_match, has_token, lemma_token_index_unique, some_cred_match, unique_tokens,
};

verus! {

/// Relies on uuid::Uuid::new_v4 and uuid's Display rendering: a freshly
/// drawn random version-4 UUID in its 36-character hyphenated hexadecimal
/// form. The value is random, so nothing more is promised of it; callers
/// check freshness against their own store.
#[verifier::external_body]
fn fresh_token() -> (r: String)
    ensures
        crate::identity::valid_id(r@),
{
    uuid::Uuid::new_v4().to_string()
}

/// Relies on str::chars: the characters of the string, in order.
#[verifier::external_body]
fn string_chars(s: &String) -> (r: Vec<char>)
    ensures
        r@ == s@,
{
    s.chars().collect()
}

/// ASCII case folding of one character: the uppercase letters move to
/// their lowercase forms, everything else is unchanged.
pub open spec fn lower_char(c: char) -> char {
    if 65 <= c as u32 && c as u32 <= 90 {
        (((c as u32 + 32) as u8) as char)
    } else {
        c
    }
}

/// ASCII case folding of a character sequence.
pub open spec fn lower(s: Seq<char>) -> Seq<char> {
    s.map_values(|c: char| lower_char(c))
}

/// `needle` occurs contiguously inside `hay`.
pub open spec fn is_substring(needle: Seq<char>, hay: Seq<char>) -> bool {
    exists|k: int|
        0 <= k && k + needle.len() <= hay.len() && #[trigger] hay.subrange(k, k + needle.len())
            == needle
}

/// The username search rule: the query occurs in the record's username,
/// compared after ASCII case folding on both sides.
pub open spec fn username_matches<T: ObjectId>(t: T, query: Seq<char>) -> bool {
    is_substring(lower(query), lower(t.spec_username()))
}

/// ASCII case folding, executably.
fn lower_chars(v: &Vec<char>) -> (r: Vec<char>)
    ensures
        r@ == lower(v@),
{
    let mut r: Vec<char> = Vec::new();
    let mut i: usize = 0;
    while i < v.len()
        invariant
            i <= v@.len(),
            r@.len() == i,
            forall|j: int| 0 <= j < i ==> r@[j] == lower_char(#[trigger] v@[j]),
        decreases v@.len() - i,
    {
        let c = v[i];
        let cu = c as u32;
        let lc = if 65 <= cu && cu <= 90 {
            ((cu + 32) as u8) as char
        } else {
            c
        };
        r.push(lc);
        i += 1;
    }
    proof {
        assert(r@ =~= lower(v@));
    }
    r
}

/// `needle` stands at position `k` of `hay`.
fn match_at(needle: &Vec<char>, hay: &Vec<char>, k: usize) -> (r: bool)
    requires
        k + needle@.len() <= hay@.len(),
    ensures
        r == (hay@.subrange(k as int, k as int + needle@.len()) == needle@),
{
    let nl = needle.len();
    let hl = hay.len();
    let mut m: usize = 0;
    while m < nl
        invariant
            m <= nl,
            nl == needle@.len(),
            hl == hay@.len(),
            k + nl <= hl,
            forall|p: int| 0 <= p < m ==> hay@[k + p] == #[trigger] needle@[p],
        decreases nl - m,
    {
        if hay[k + m] != needle[m] {
            proof {
                assert(hay@.subrange(k as int, k as int + needle@.len())[m as int] == hay@[k + m]);
            }
            return false;
        }
        m += 1;
    }
    proof {
        assert(hay@.subrange(k as int, k as int + needle@.len()) =~= needle@);
    }
    true
}

/// Whether `needle` occurs anywhere inside `hay`.
fn contains_chars(needle: &Vec<char>, hay: &Vec<char>) -> (r: bool)
    ensures
        r == is_substring(needle@, hay@),
{
    let n = needle.len();
    let h = hay.len();
    if n > h {
        return false;
    }
    if n == 0 {
        proof {
            assert(hay@.subrange(0, 0 + needle@.len() as int) =~= needle@);
            assert(is_substring(needle@, hay@));
        }
        return true;
    }
    let mut k: usize = 0;
    while k <= h - n
        invariant
            n == needle@.len(),
            h == hay@.len(),
            1 <= n <= h,
            k <= h - n + 1,
            forall|q: int|
                0 <= q < k ==> #[trigger] hay@.subrange(q, q + needle@.len()) != needle@,
        decreases h - n - k + 1,
    {
        if match_at(needle, hay, k) {
            return true;
        }
        k += 1;
    }
    proof {
        if is_substring(needle@, hay@) {
            let k0 = choose|k0: int|
                0 <= k0 && k0 + needle@.len() <= hay@.len() && #[trigger] hay@.subrange(
                    k0,
                    k0 + needle@.len(),
                ) == needle@;
            assert(k0 < k);
            assert(false);
        }
    }
    false
}

/// The reference storage backend: both capability sets over plain vectors,
/// held in memory. It is the implementation the backend contract is held
/// against; persistent backends plug in through the same two traits.
pub struct MemoryBackend<T> {
    pub identities: Vec<T>,
    pub sessions: Vec<SessionRecord>,
}

impl<T: ObjectId> MemoryBackend<T> {
    /// The abstract session store.
    pub open spec fn spec_sessions(&self) -> Seq<SessionRecordV> {
        self.sessions@.map_values(|r: SessionRecord| r@)
    }

    pub fn new() -> (r: Self)
        ensures
            r.identities@ == Seq::<T>::empty(),
            r.spec_sessions() == Seq::<SessionRecordV>::empty(),
    {
        let r = MemoryBackend { identities: Vec::new(), sessions: Vec::new() };
        proof {
            assert(r.spec_sessions() =~= Seq::<SessionRecordV>::empty());
        }
        r
    }

    /// The records whose username contains the query, compared after ASCII
    /// case folding on both sides, in store order.
    pub fn search_identity(&self, username: String) -> (r: Result<Vec<T>, IdentityError>)
        ensures
            match r {
                Ok(v) => v@ == self.identities@.filter(
                    |t: T| username_matches(t, username@),
                ),
                Err(e) => e is ServiceUnavailable || e is InternalServerError,
            },
    {
        let ghost pred = |t: T| username_matches(t, username@);
        let needle = lower_chars(&string_chars(&username));
        let mut out: Vec<T> = Vec::new();
        let mut i: usize = 0;
        while i < self.identities.len()
            invariant
                i <= self.identities@.len(),
                needle@ == lower(username@),
                out@ == self.identities@.take(i as int).filter(pred),
                pred == (|t: T| username_matches(t, username@)),
            decreases self.identities@.len() - i,
        {
            let uname = self.identities[i].username();
            let hay = lower_chars(&string_chars(&uname));
            let ghost pre = self.identities@.take(i as int);
            let ghost cur = self.identities@.take(i as int + 1);
            if contains_chars(&needle, &hay) {
                out.push(self.identities[i].duplicate());
            }
            proof {
                reveal(Seq::filter);
                assert(cur.drop_last() =~= pre);
                assert(cur.last() == self.identities@[i as int]);
                assert(pred(self.identities@[i as int]) == username_matches(
                    self.identities@[i as int],
                    username@,
                ));
                assert(out@ == cur.filter(pred));
            }
            i += 1;
        }
        proof {
            assert(self.identities@.take(self.identities@.len() as int) =~= self.identities@);
        }
        Ok(out)
    }

    /// The position of the record carrying the given identifier, if any.
    fn find_ident(&self, id: &String) -> (r: Option<usize>)
        ensures
            match r {
                Some(i) => i < self.identities@.len() && self.identities@[i as int].spec_id()
                    == Some(id@),
                None => !has_ident(self.identities@, id@),
            },
    {
        let mut i: usize = 0;
        while i < self.identities.len()
            invariant
                i <= self.identities@.len(),
                forall|j: int|
                    0 <= j < i ==> (#[trigger] self.identities@[j].spec_id()) != Some(id@),
            decreases self.identities@.len() - i,
        {
            match self.identities[i].id() {
                Some(s) => {
                    if s == *id {
                        return Some(i);
                    }
                },
                None => {},
            }
            i += 1;
        }
        None
    }

    /// The position of the record matching the presented credentials, if any.
    fn find_cred(&self, username: &String, password: &String) -> (r: Option<usize>)
        ensures
            match r {
                Some(i) => i < self.identities@.len() && cred_match(
                    self.identities@[i as int],
                    username@,
                    password@,
                ),
                None => !some_cred_match(self.identities@, username@, password@),
            },
    {
        let mut i: usize = 0;
        while i < self.identities.len()
            invariant
                i <= self.identities@.len(),
                forall|j: int|
                    0 <= j < i ==> !cred_match(#[trigger] self.identities@[j], username@, password@),
            decreases self.identities@.len() - i,
        {
            let u = self.identities[i].username();
            if u == *username {
                let p = self.identities[i].password();
                if p == *password {
                    return Some(i);
                }
            }
            i += 1;
        }
        None
    }

    /// The position of the stored session carrying the given token, if any.
    fn find_token(&self, token: &String) -> (r: Option<usize>)
        ensures
            match r {
                Some(i) => i < self.sessions@.len() && self.sessions@[i as int]@.token == token@,
                None => !has_token(self.spec_sessions(), token@),
            },
    {
        let mut i: usize = 0;
        while i < self.sessions.len()
            invariant
                i <= self.sessions@.len(),
                forall|j: int| 0 <= j < i ==> (#[trigger] self.sessions@[j]@).token != token@,
            decreases self.sessions@.len() - i,
        {
            if self.sessions[i].session.id == *token {
                return Some(i);
            }
            i += 1;
        }
        proof {
            assert(forall|j: int|
                0 <= j < self.spec_sessions().len() ==> (#[trigger] self.spec_sessions()[j]).token
                    != token@);
        }
        None
    }
}

impl<T: ObjectId> IdentityBackend<T> for MemoryBackend<T> {
    open spec fn idents(&self) -> Seq<T> {
        self.identities@
    }

    fn get_all(&self) -> (r: Result<Vec<T>, IdentityError>)
        ensures
            r is Ok,
    {
        let mut out: Vec<T> = Vec::new();
        let mut i: usize = 0;
        while i < self.identities.len()
            invariant
                i <= self.identities@.len(),
                out@.len() == i,
                forall|j: int| 0 <= j < i ==> out@[j] == self.identities@[j],
            decreases self.identities@.len() - i,
        {
            out.push(self.identities[i].duplicate());
            i += 1;
        }
        proof {
            assert(out@ =~= self.identities@);
        }
        Ok(out)
    }

    fn create(&mut self, identity: T) -> (r: Result<(), IdentityError>)
        ensures
            r is Err ==> r == Err::<(), IdentityError>(IdentityError::InternalServerError),
    {
        let id = fresh_token();
        match self.find_ident(&id) {
            Some(_) => Err(IdentityError::InternalServerError),
            None => {
                let mut identity = identity;
                identity.set_id(id);
                self.identities.push(identity);
                proof {
                    assert(self.identities@.take(old(self).identities@.len() as int)
                        =~= old(self).identities@);
                }
                Ok(())
            },
        }
    }

    fn get_by_id(&self, id: String) -> (r: Result<T, IdentityError>)
        ensures
            r is Ok <==> has_ident(self.identities@, id@),
    {
        match self.find_ident(&id) {
            Some(i) => {
                proof {
                    lemma_ident_index_unique(self.identities@, id@, i as int);
                }
                Ok(self.identities[i].duplicate())
            },
            None => Err(IdentityError::NotFound),
        }
    }

    fn update_by_id(&mut self, id: String, identity: T) -> (r: Result<(), IdentityError>)
        ensures
            r is Ok <==> has_ident(old(self).identities@, id@),
    {
        match self.find_ident(&id) {
            Some(i) => {
                let mut identity = identity;
                identity.set_id(id);
                self.identities.remove(i);
                self.identities.insert(i, identity);
                proof {
                    let ghost pre = old(self).identities@;
                    let ghost post = self.identities@;
                    assert(forall|j: int| 0 <= j < pre.len() && j != i ==> post[j] == pre[j]);
                }
                Ok(())
            },
            None => Err(IdentityError::NotFound),
        }
    }

    fn delete_by_id(&mut self, id: String) -> (r: Result<(), IdentityError>)
        ensures
            r is Ok <==> has_ident(old(self).identities@, id@),
    {
        match self.find_ident(&id) {
            Some(i) => {
                self.identities.remove(i);
                Ok(())
            },
            None => Err(IdentityError::NotFound),
        }
    }
}

impl<T: ObjectId> SessionBackend<T> for MemoryBackend<T> {
    open spec fn sessions(&self) -> Seq<SessionRecordV> {
        self.spec_sessions()
    }

    fn login(&mut self, username: String, password: String, now: u64) -> (r: Result<
        Session,
        SessionError,
    >)
        ensures
            r is Err ==> (r == Err::<Session, SessionError>(SessionError::InvalidLogin) || r
                == Err::<Session, SessionError>(SessionError::InternalServerError)),
    {
        match self.find_cred(&username, &password) {
            None => Err(SessionError::InvalidLogin),
            Some(i) => {
                let uid = self.identities[i].id().unwrap();
                let token = fresh_token();
                match self.find_token(&token) {
                    Some(_) => Err(SessionError::InternalServerError),
                    None => {
                        let session = Session::new(token, uid);
                        let record = SessionRecord {
                            session: session.clone(),
                            created_at: now,
                            expires_at: now + SESSION_TTL_SECONDS,
                        };
                        self.sessions.push(record);
                        proof {
                            lemma_ident_index_unique(self.identities@, session.user_id@, i as int);
                            assert(self.spec_sessions() =~= old(self).spec_sessions().push(
                                (SessionRecordV {
                                    token: session.id@,
                                    user_id: session.user_id@,
                                    created_at: now,
                                    expires_at: (now + SESSION_TTL_SECONDS) as u64,
                                }),
                            ));
                        }
                        Ok(session)
                    },
                }
            },
        }
    }

    fn validate(&self, session_id: String, now: u64) -> (r: Result<T, SessionError>) {
        match self.find_token(&session_id) {
            None => Err(SessionError::InvalidOrMissingSession),
            Some(i) => {
                proof {
                    lemma_token_index_unique(self.spec_sessions(), session_id@, i as int);
                }
                if now >= self.sessions[i].expires_at {
                    Err(SessionError::InvalidOrMissingSession)
                } else {
                    let owner = self.find_ident(&self.sessions[i].session.user_id);
                    match owner {
                        None => Err(SessionError::InternalServerError),
                        Some(j) => {
                            proof {
                                lemma_ident_index_unique(
                                    self.identities@,
                                    self.sessions@[i as int].session.user_id@,
                                    j as int,
                                );
                            }
                            Ok(self.identities[j].duplicate())
                        },
                    }
                }
            },
        }
    }
}

} // verus!
