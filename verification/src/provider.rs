use vstd::prelude::*;

use crate::ObjectId;
use crate::identity::{IdentityProvider, unique_ids};
use crate::session::{SessionBackend, SessionError, SessionProvider, spec_validate, unique_tokens};

verus! {

#[derive(Clone, Copy, Debug, PartialEq, Eq, Structural)]
pub enum HttpMethod {
    Get,
    Post,
    Put,
    Delete,
}

/// One registered route: its method, the mount-point-relative base
/// segment, whether an `{id}` path parameter follows, and whether the
/// handler depends on a resolved session.
pub struct RouteSpec {
    pub method: HttpMethod,
    pub base: String,
    pub with_id_param: bool,
    pub requires_auth: bool,
}

impl IdentityProvider {
    /// The identity surface: list, create and read are open; update and
    /// delete additionally require a resolved session.
    pub fn routes(&self) -> (r: Vec<RouteSpec>)
        ensures
            r@.len() == 5,
            forall|i: int| 0 <= i < 5 ==> (#[trigger] r@[i].base@) == self.identity_base_path@,
            r@[0].method is Get && !r@[0].with_id_param && !r@[0].requires_auth,
            r@[1].method is Post && !r@[1].with_id_param && !r@[1].requires_auth,
            r@[2].method is Get && r@[2].with_id_param && !r@[2].requires_auth,
            r@[3].method is Put && r@[3].with_id_param && r@[3].requires_auth,
            r@[4].method is Delete && r@[4].with_id_param && r@[4].requires_auth,
    {
        let mut r: Vec<RouteSpec> = Vec::new();
        r.push(RouteSpec {
            method: HttpMethod::Get,
            base: self.identity_base_path.clone(),
            with_id_param: false,
            requires_auth: false,
        });
        r.push(RouteSpec {
            method: HttpMethod::Post,
            base: self.identity_base_path.clone(),
            with_id_param: false,
            requires_auth: false,
        });
        r.push(RouteSpec {
            method: HttpMethod::Get,
            base: self.identity_base_path.clone(),
            with_id_param: true,
            requires_auth: false,
        });
        r.push(RouteSpec {
            method: HttpMethod::Put,
            base: self.identity_base_path.clone(),
            with_id_param: true,
            requires_auth: true,
        });
        r.push(RouteSpec {
            method: HttpMethod::Delete,
            base: self.identity_base_path.clone(),
            with_id_param: true,
            requires_auth: true,
        });
        r
    }
}

impl SessionProvider {
    /// The session surface: login is open; validation requires a resolved
    /// session.
    pub fn routes(&self) -> (r: Vec<RouteSpec>)
        ensures
            r@.len() == 2,
            r@[0].method is Post && r@[0].base@ == self.login_path@ && !r@[0].with_id_param
                && !r@[0].requires_auth,
            r@[1].method is Get && r@[1].base@ == self.validate_path@ && !r@[1].with_id_param
                && r@[1].requires_auth,
    {
        let mut r: Vec<RouteSpec> = Vec::new();
        r.push(RouteSpec {
            method: HttpMethod::Post,
            base: self.login_path.clone(),
            with_id_param: false,
            requires_auth: false,
        });
        r.push(RouteSpec {
            method: HttpMethod::Get,
            base: self.validate_path.clone(),
            with_id_param: false,
            requires_auth: true,
        });
        r
    }
}

/// The composition root: one shared backend instance and the two facades
/// wired against it.
pub struct AuthProvider<B> {
    pub backend: B,
    pub session_provider: SessionProvider,
    pub identity_provider: IdentityProvider,
}

/// Builds an `AuthProvider` around one backend instance, with the default
/// route configuration.
pub struct AuthProviderBuilder<B> {
    pub backend: B,
    pub session_provider: SessionProvider,
    pub identity_provider: IdentityProvider,
}

impl<B> AuthProviderBuilder<B> {
    pub fn default_with_backend(backend: B) -> (r: AuthProviderBuilder<B>)
        ensures
            r.backend == backend,
            r.session_provider.login_path@ == "session/login"@,
            r.session_provider.validate_path@ == "session/validate"@,
            r.identity_provider.identity_base_path@ == "identity"@,
    {
        AuthProviderBuilder {
            backend,
            session_provider: SessionProvider::new(),
            identity_provider: IdentityProvider::new(),
        }
    }

    pub fn build(self) -> (r: AuthProvider<B>)
        ensures
            r.backend == self.backend,
            r.session_provider == self.session_provider,
            r.identity_provider == self.identity_provider,
    {
        AuthProvider {
            backend: self.backend,
            session_provider: self.session_provider,
            identity_provider: self.identity_provider,
        }
    }
}

impl<B> AuthProvider<B> {
    pub fn builder(backend: B) -> (r: AuthProviderBuilder<B>)
        ensures
            r.backend == backend,
            r.session_provider.login_path@ == "session/login"@,
            r.session_provider.validate_path@ == "session/validate"@,
            r.identity_provider.identity_base_path@ == "identity"@,
    {
        AuthProviderBuilder::default_with_backend(backend)
    }

    pub fn default_with_backend(backend: B) -> (r: AuthProvider<B>)
        ensures
            r.backend == backend,
            r.session_provider.login_path@ == "session/login"@,
            r.session_provider.validate_path@ == "session/validate"@,
            r.identity_provider.identity_base_path@ == "identity"@,
    {
        AuthProviderBuilder::default_with_backend(backend).build()
    }

    /// The request-scoped "authenticated identity" resolution primitive the
    /// mutation endpoints are gated on.
    pub fn validate_session<T: ObjectId>(&self, session_id: String, now: u64) -> (r: Result<
        T,
        SessionError,
    >) where B: SessionBackend<T>
        requires
            unique_ids(self.backend.idents()),
            unique_tokens(self.backend.sessions()),
        ensures
            r == spec_validate(self.backend.sessions(), self.backend.idents(), session_id@, now),
    {
        self.session_provider.validate(&self.backend, session_id, now)
    }

    /// Everything the composition root registers: the identity surface and
    /// the session surface.
    pub fn routes(&self) -> (r: Vec<RouteSpec>)
        ensures
            r@.len() == 7,
            forall|i: int|
                0 <= i < 5 ==> (#[trigger] r@[i].base@)
                    == self.identity_provider.identity_base_path@,
            r@[0].method is Get && !r@[0].with_id_param && !r@[0].requires_auth,
            r@[1].method is Post && !r@[1].with_id_param && !r@[1].requires_auth,
            r@[2].method is Get && r@[2].with_id_param && !r@[2].requires_auth,
            r@[3].method is Put && r@[3].with_id_param && r@[3].requires_auth,
            r@[4].method is Delete && r@[4].with_id_param && r@[4].requires_auth,
            r@[5].method is Post && r@[5].base@ == self.session_provider.login_path@
                && !r@[5].with_id_param && !r@[5].requires_auth,
            r@[6].method is Get && r@[6].base@ == self.session_provider.validate_path@
                && !r@[6].with_id_param && r@[6].requires_auth,
    {
        let mut r = self.identity_provider.routes();
        let mut s = self.session_provider.routes();
        let first = s.remove(0);
        let second = s.remove(0);
        r.push(first);
        r.push(second);
        r
    }
}

} // verus!
