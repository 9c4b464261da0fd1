use toro_auth::identity::{
    IdentityBackend, IdentityError, IdentityGetPath, IdentityProvider, check_id, handle_create,
    handle_delete_by_id, handle_get_all, handle_get_by_id, handle_update_by_id,
};
use toro_auth::memory::MemoryBackend;
use toro_auth::provider::{AuthProvider, HttpMethod};
use toro_auth::session::{
    LoginRequest, SESSION_TTL_SECONDS, Session, SessionBackend, SessionError, SessionProvider,
    handle_login, handle_validate,
};
use toro_auth::users::User;
use toro_auth::IntoPublic;

fn user(name: &str, pw: &str) -> User {
    User { id: None, username: name.to_string(), password: pw.to_string() }
}

fn seeded() -> (MemoryBackend<User>, String) {
    let mut b: MemoryBackend<User> = MemoryBackend::new();
    b.create(user("alice", "wonder")).unwrap();
    let all = b.get_all().unwrap();
    let id = all[0].id.clone().unwrap();
    (b, id)
}

#[test]
fn create_then_get_by_id_returns_input_except_id() {
    let (b, id) = seeded();
    let got = b.get_by_id(id.clone()).unwrap();
    assert_eq!(got.username, "alice");
    assert_eq!(got.password, "wonder");
    assert_eq!(got.id, Some(id));
}

#[test]
fn public_view_omits_password() {
    let (b, id) = seeded();
    let got = b.get_by_id(id.clone()).unwrap();
    let public = got.into_public();
    assert_eq!(public.id, Some(id));
    assert_eq!(public.username, "alice");
    // PublicUser has no password field at all; the projection carries
    // exactly the identifier and the username.
}

#[test]
fn login_then_validate_returns_same_identity() {
    let (mut b, id) = seeded();
    let s = b.login("alice".to_string(), "wonder".to_string(), 1_000).unwrap();
    assert_eq!(s.user_id, id);
    let t = b.validate(s.id.clone(), 1_000).unwrap();
    assert_eq!(t.id, Some(id));
    assert_eq!(t.username, "alice");
}

#[test]
fn validate_unknown_token_is_rejected() {
    let (b, _) = seeded();
    let r = b.validate("never-issued".to_string(), 0);
    assert!(matches!(r, Err(SessionError::InvalidOrMissingSession)));
}

#[test]
fn validate_after_deadline_is_rejected_though_record_remains() {
    let (mut b, _) = seeded();
    let s = b.login("alice".to_string(), "wonder".to_string(), 1_000).unwrap();
    // Exactly at the deadline the session is no longer live.
    let r = b.validate(s.id.clone(), 1_000 + SESSION_TTL_SECONDS);
    assert!(matches!(r, Err(SessionError::InvalidOrMissingSession)));
    // The record still exists: just before the deadline it still resolves.
    let t = b.validate(s.id.clone(), 1_000 + SESSION_TTL_SECONDS - 1).unwrap();
    assert_eq!(t.username, "alice");
    assert_eq!(b.sessions.len(), 1);
}

#[test]
fn login_wrong_credentials_is_invalid_login() {
    let (mut b, _) = seeded();
    let r = b.login("alice".to_string(), "guess".to_string(), 0);
    assert!(matches!(r, Err(SessionError::InvalidLogin)));
    let r = b.login("nobody".to_string(), "wonder".to_string(), 0);
    assert!(matches!(r, Err(SessionError::InvalidLogin)));
    assert_eq!(b.sessions.len(), 0);
}

#[test]
fn concurrent_creates_get_distinct_ids() {
    let mut b: MemoryBackend<User> = MemoryBackend::new();
    for i in 0..8 {
        b.create(user(&format!("u{i}"), "pw")).unwrap();
    }
    let all = b.get_all().unwrap();
    for i in 0..all.len() {
        for j in 0..all.len() {
            if i != j {
                assert_ne!(all[i].id, all[j].id);
            }
        }
    }
}

#[test]
fn update_delete_with_foreign_session_is_unauthorized_and_mutates_nothing() {
    let mut b: MemoryBackend<User> = MemoryBackend::new();
    b.create(user("alice", "wonder")).unwrap();
    b.create(user("bob", "builder")).unwrap();
    let all = b.get_all().unwrap();
    let alice_id = all[0].id.clone().unwrap();
    let provider = IdentityProvider::new();

    // A session resolved to bob, targeting alice's record.
    let s = b.login("bob".to_string(), "builder".to_string(), 0).unwrap();
    let bob = b.validate(s.id.clone(), 1).unwrap();
    let session = toro_auth::session::SessionRes { inner: bob };

    let path = IdentityGetPath { id: alice_id.clone() };
    let status = handle_update_by_id(&provider, &mut b, &path, user("mallory", "x"), &session);
    assert_eq!(status, 401);
    let status = handle_delete_by_id(&provider, &mut b, &path, &session);
    assert_eq!(status, 401);

    let unchanged = b.get_by_id(alice_id.clone()).unwrap();
    assert_eq!(unchanged.username, "alice");
    assert_eq!(unchanged.password, "wonder");
    assert_eq!(b.get_all().unwrap().len(), 2);
}

#[test]
fn delete_nonexistent_id_is_not_found_not_204() {
    let (mut b, id) = seeded();
    let provider = IdentityProvider::new();
    // A well-formed identifier that was never assigned: flip its digits.
    let ghost_id = "00000000-0000-4000-8000-000000000000".to_string();
    assert_ne!(ghost_id, id);
    let owner = b.get_by_id(id.clone()).unwrap();
    let session = toro_auth::session::SessionRes {
        inner: User { id: Some(ghost_id.clone()), ..owner },
    };
    let path = IdentityGetPath { id: ghost_id.clone() };
    let status = handle_delete_by_id(&provider, &mut b, &path, &session);
    assert_eq!(status, 404);
    assert_eq!(b.get_all().unwrap().len(), 1);
    // The facade reports the same outcome.
    let r = provider.delete(&mut b, ghost_id);
    assert!(matches!(r, Err(IdentityError::NotFound)));
}

#[test]
fn end_to_end_login_validate_delete() {
    let mut auth = AuthProvider::default_with_backend(MemoryBackend::<User>::new());
    let status = handle_create(&auth.identity_provider, &mut auth.backend, user("alice", "wonder"));
    assert_eq!(status, 201);
    let seeded_id = auth.backend.get_all().unwrap()[0].id.clone().unwrap();

    // POST /session/login with the seeded credentials: 200 and a cookie.
    let now = 5_000;
    let (status, cookie) = handle_login(
        &auth.session_provider,
        &mut auth.backend,
        LoginRequest { username: "alice".to_string(), password: "wonder".to_string() },
        now,
    );
    assert_eq!(status, 200);
    let cookie = cookie.unwrap();
    assert_eq!(cookie.name, "sessionId");
    assert_eq!(cookie.path, "/");
    assert_eq!(cookie.expires_at, now + SESSION_TTL_SECONDS);

    // GET /session/validate with the cookie: 200 and the seeded identity.
    let resolved = auth
        .session_provider
        .resolve(&auth.backend, Some(cookie.value.clone()), now + 1)
        .unwrap();
    let (status, me) = handle_validate(resolved);
    assert_eq!(status, 200);
    assert_eq!(me.id, Some(seeded_id.clone()));
    assert_eq!(me.username, "alice");

    // GET /session/validate with no cookie: rejected without a backend call.
    let rejected = auth.session_provider.resolve::<User, _>(&auth.backend, None, now + 1);
    assert!(matches!(rejected, Err(SessionError::InvalidOrMissingSession)));
    assert_eq!(SessionError::InvalidOrMissingSession.status_code(), 401);

    // DELETE /identity/{seeded_id} with the cookie: 204.
    let resolved = auth
        .session_provider
        .resolve(&auth.backend, Some(cookie.value.clone()), now + 2)
        .unwrap();
    let path = IdentityGetPath { id: seeded_id.clone() };
    let status = handle_delete_by_id(&auth.identity_provider, &mut auth.backend, &path, &resolved);
    assert_eq!(status, 204);

    // Subsequent GET /identity/{seeded_id}: 404.
    let (status, body) = handle_get_by_id(&auth.identity_provider, &auth.backend, &path);
    assert_eq!(status, 404);
    assert!(body.is_none());
}

#[test]
fn get_all_handler_projects_every_record() {
    let mut b: MemoryBackend<User> = MemoryBackend::new();
    b.create(user("alice", "wonder")).unwrap();
    b.create(user("bob", "builder")).unwrap();
    let provider = IdentityProvider::new();
    let (status, body) = handle_get_all(&provider, &b);
    assert_eq!(status, 200);
    let body = body.unwrap();
    assert_eq!(body.len(), 2);
    assert_eq!(body[0].username, "alice");
    assert_eq!(body[1].username, "bob");
}

#[test]
fn malformed_id_is_rejected_as_invalid_id() {
    let (b, _) = seeded();
    let provider = IdentityProvider::new();
    let r = provider.get_by_id(&b, "not-a-uuid".to_string());
    assert!(matches!(r, Err(IdentityError::InvalidId)));
    assert_eq!(IdentityError::InvalidId.status_code(), 400);
    let path = IdentityGetPath { id: "zz".to_string() };
    let (status, body) = handle_get_by_id(&provider, &b, &path);
    assert_eq!(status, 400);
    assert!(body.is_none());
}

#[test]
fn id_format_check() {
    assert!(check_id(&"0f9d7a9e-13a5-4d09-8a2b-0c1d2e3f4a5b".to_string()));
    assert!(check_id(&"0F9D7A9E-13A5-4D09-8A2B-0C1D2E3F4A5B".to_string()));
    assert!(!check_id(&"".to_string()));
    assert!(!check_id(&"0f9d7a9e13a54d098a2b0c1d2e3f4a5b".to_string()));
    assert!(!check_id(&"0f9d7a9e-13a5-4d09-8a2b-0c1d2e3f4a5g".to_string()));
    assert!(!check_id(&"0f9d7a9e-13a5-4d09-8a2b-0c1d2e3f4a5\u{f6}".to_string()));
    assert!(!check_id(&"0f9d7a9e-13a5_4d09-8a2b-0c1d2e3f4a5b".to_string()));
}

#[test]
fn assigned_ids_are_well_formed() {
    let (_, id) = seeded();
    assert!(check_id(&id));
}

#[test]
fn update_by_owner_replaces_record_and_keeps_id() {
    let (mut b, id) = seeded();
    let provider = IdentityProvider::new();
    let owner = b.get_by_id(id.clone()).unwrap();
    let session = toro_auth::session::SessionRes { inner: owner };
    let path = IdentityGetPath { id: id.clone() };
    let status = handle_update_by_id(
        &provider,
        &mut b,
        &path,
        user("alice", "through-the-looking-glass"),
        &session,
    );
    assert_eq!(status, 200);
    let got = b.get_by_id(id.clone()).unwrap();
    assert_eq!(got.id, Some(id));
    assert_eq!(got.username, "alice");
    assert_eq!(got.password, "through-the-looking-glass");
}

#[test]
fn error_status_codes_match_the_table() {
    assert_eq!(IdentityError::NotFound.status_code(), 404);
    assert_eq!(IdentityError::InternalServerError.status_code(), 500);
    assert_eq!(IdentityError::ServiceUnavailable.status_code(), 503);
    assert_eq!(IdentityError::Unauthorized.status_code(), 401);
    assert_eq!(IdentityError::InvalidId.status_code(), 400);
    assert_eq!(SessionError::InvalidOrMissingSession.status_code(), 401);
    assert_eq!(SessionError::InternalServerError.status_code(), 500);
    assert_eq!(SessionError::ServiceUnavailable.status_code(), 503);
    assert_eq!(SessionError::InvalidLogin.status_code(), 401);
}

#[test]
fn route_table_matches_the_surface() {
    let auth = AuthProvider::default_with_backend(MemoryBackend::<User>::new());
    let routes = auth.routes();
    assert_eq!(routes.len(), 7);
    for r in routes.iter().take(5) {
        assert_eq!(r.base, "identity");
    }
    assert_eq!(routes[0].method, HttpMethod::Get);
    assert!(!routes[0].with_id_param && !routes[0].requires_auth);
    assert_eq!(routes[1].method, HttpMethod::Post);
    assert!(!routes[1].with_id_param && !routes[1].requires_auth);
    assert_eq!(routes[2].method, HttpMethod::Get);
    assert!(routes[2].with_id_param && !routes[2].requires_auth);
    assert_eq!(routes[3].method, HttpMethod::Put);
    assert!(routes[3].with_id_param && routes[3].requires_auth);
    assert_eq!(routes[4].method, HttpMethod::Delete);
    assert!(routes[4].with_id_param && routes[4].requires_auth);
    assert_eq!(routes[5].base, "session/login");
    assert_eq!(routes[5].method, HttpMethod::Post);
    assert!(!routes[5].requires_auth);
    assert_eq!(routes[6].base, "session/validate");
    assert_eq!(routes[6].method, HttpMethod::Get);
    assert!(routes[6].requires_auth);
}

#[test]
fn session_new_binds_token_to_user() {
    let s = Session::new("tok".to_string(), "uid".to_string());
    assert_eq!(s.id, "tok");
    assert_eq!(s.user_id, "uid");
}

#[test]
fn search_identity_is_case_insensitive_substring() {
    let mut b: MemoryBackend<User> = MemoryBackend::new();
    b.create(user("Alice", "a")).unwrap();
    b.create(user("malice", "b")).unwrap();
    b.create(user("bob", "c")).unwrap();
    let hits = b.search_identity("ALI".to_string()).unwrap();
    assert_eq!(hits.len(), 2);
    assert_eq!(hits[0].username, "Alice");
    assert_eq!(hits[1].username, "malice");
    let none = b.search_identity("carol".to_string()).unwrap();
    assert!(none.is_empty());
    let all = b.search_identity("".to_string()).unwrap();
    assert_eq!(all.len(), 3);
}

#[test]
fn validate_session_through_the_composition_root() {
    let mut auth = AuthProvider::default_with_backend(MemoryBackend::<User>::new());
    auth.backend.create(user("alice", "wonder")).unwrap();
    let s = auth
        .session_provider
        .login(&mut auth.backend, "alice".to_string(), "wonder".to_string(), 10)
        .unwrap();
    let t: User = auth.validate_session(s.id.clone(), 11).unwrap();
    assert_eq!(t.username, "alice");
    // Builder path: the same wiring, step by step.
    let built = AuthProvider::builder(MemoryBackend::<User>::new()).build();
    assert_eq!(built.identity_provider.identity_base_path, "identity");
    assert_eq!(built.session_provider.login_path, "session/login");
    assert_eq!(built.session_provider.validate_path, "session/validate");
}

#[test]
fn validate_of_orphaned_session_is_internal_error() {
    let (mut b, id) = seeded();
    let s = b.login("alice".to_string(), "wonder".to_string(), 0).unwrap();
    b.delete_by_id(id).unwrap();
    let r = b.validate(s.id.clone(), 1);
    assert!(matches!(r, Err(SessionError::InternalServerError)));
}

#[test]
fn empty_store_lists_nothing_and_knows_nobody() {
    let b: MemoryBackend<User> = MemoryBackend::new();
    assert!(b.get_all().unwrap().is_empty());
    let provider = SessionProvider::new();
    let r = provider.validate::<User, _>(&b, "tok".to_string(), 0);
    assert!(matches!(r, Err(SessionError::InvalidOrMissingSession)));
}

#[test]
fn duplicate_usernames_still_log_in() {
    let mut b: MemoryBackend<User> = MemoryBackend::new();
    b.create(user("alice", "wonder")).unwrap();
    b.create(user("alice", "wonder")).unwrap();
    let s = b.login("alice".to_string(), "wonder".to_string(), 0).unwrap();
    let t = b.validate(s.id.clone(), 1).unwrap();
    assert_eq!(t.username, "alice");
    assert_eq!(t.id, Some(s.user_id));
}
