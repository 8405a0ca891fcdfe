//! Userinfo: an access token is resolved to the profile of its user, through
//! a short-lived cache of profiles.
use vstd::prelude::*;
use crate::api_response::{ApiError, ApiSuccess, StatusCode};
use crate::domain::{IdpUser, OauthSession, OauthToken};
use crate::dto::{UserinfoRequest, UserinfoResponse};
use crate::hasher::{hash_sha256, sha256_hex};
use crate::vault::VaultFault;
use vstd::string::StringExecFns;

verus! {

/// Seconds a profile stays cached.
pub const PROFILE_TTL_SECONDS: u64 = 300;

/// The cache key of the profile of a subject.
pub open spec fn profile_key(sub: Seq<char>) -> Seq<char> {
    "sub:"@ + sub
}

/// The text of an optional field, empty where it is absent.
pub open spec fn text_or_empty(field: Option<String>) -> Seq<char> {
    match field {
        Some(s) => s@,
        None => Seq::<char>::empty(),
    }
}

/// Whether `profile` is the public shape of `user`.
pub open spec fn describes(profile: UserinfoResponse, user: IdpUser) -> bool {
    &&& profile.sub == user.id
    &&& profile.given_name@ == text_or_empty(user.name)
    &&& profile.family_name@ == text_or_empty(user.family_name)
    &&& profile.gender@ == text_or_empty(user.gender)
    &&& profile.email@ == text_or_empty(user.email)
    &&& profile.created_at@ == text_or_empty(user.created_at)
}

pub struct UserinfoUseCase {
    pub access_token: String,
}

/// Waits for the cache to be asked for the entry under `key`.
pub struct UserinfoCacheLookup {
    pub key: String,
    pub access_token: String,
}

/// Waits for the token row whose access digest is `digest` to be found.
pub struct UserinfoFindToken {
    pub digest: String,
    pub key: String,
}

/// Waits for the session `session_id` to be loaded.
pub struct UserinfoLoadSession {
    pub session_id: u128,
    pub key: String,
}

/// Waits for the identity provider to describe the user `user_id`.
pub struct UserinfoLoadUser {
    pub user_id: u128,
    pub key: String,
}

/// Waits for `profile` to be cached under `key` for `ttl` seconds.
pub struct UserinfoCacheStore {
    pub key: String,
    pub ttl: u64,
    pub profile: UserinfoResponse,
}

/// Where the operation goes once the cache has answered.
pub enum UserinfoAfterCache {
    /// The profile was cached: the operation ends with it, and the access
    /// token is not looked at.
    Hit(ApiSuccess<UserinfoResponse>),
    /// Nothing was cached: the access token is resolved.
    Miss(UserinfoFindToken),
}

/// The text of an optional field, empty where it is absent.
pub fn or_empty(field: Option<String>) -> (r: String)
    ensures
        r@ == text_or_empty(field),
{
    match field {
        Some(s) => s,
        None => String::new(),
    }
}

impl UserinfoUseCase {
    pub fn new(access_token: String) -> (r: Self)
        ensures
            r.access_token == access_token,
    {
        Self { access_token }
    }

    /// Begins: the cache is to be asked for the profile of the subject.
    pub fn handle(self, data: UserinfoRequest) -> (r: UserinfoCacheLookup)
        ensures
            r.key@ == profile_key(data.sub@),
            r.access_token == self.access_token,
    {
        UserinfoCacheLookup {
            key: "sub:".to_owned().concat(data.sub.as_str()),
            access_token: self.access_token,
        }
    }
}

impl UserinfoCacheLookup {
    /// Takes what the cache answered. A cached profile ends the operation
    /// with status 200; a miss goes on to the token row kept under the
    /// digest of the access token; a cache that fails ends it with status
    /// 500.
    pub fn on_cached(self, cached: Result<Option<UserinfoResponse>, VaultFault>) -> (r: Result<
        UserinfoAfterCache,
        ApiError,
    >)
        ensures
            match cached {
                Err(VaultFault::Unavailable) => r matches Err(e) && e.is(
                    "Getting cache connection"@,
                    StatusCode::INTERNAL_SERVER_ERROR,
                ),
                Err(VaultFault::Failed) => r matches Err(e) && e.is(
                    "Failed to read cached profile"@,
                    StatusCode::INTERNAL_SERVER_ERROR,
                ),
                Err(VaultFault::Unreadable) => r matches Err(e) && e.is(
                    "Failed to parse session data"@,
                    StatusCode::INTERNAL_SERVER_ERROR,
                ),
                Ok(Some(profile)) => r matches Ok(UserinfoAfterCache::Hit(s)) && s.data == profile
                    && s.status_code == StatusCode::OK.code(),
                Ok(None) => r matches Ok(UserinfoAfterCache::Miss(next)) && next.digest@
                    == sha256_hex(self.access_token@) && next.key == self.key,
            },
    {
        match cached {
            Err(VaultFault::Unavailable) => Err(
                ApiError::of("Getting cache connection", StatusCode::INTERNAL_SERVER_ERROR),
            ),
            Err(VaultFault::Failed) => Err(
                ApiError::of("Failed to read cached profile", StatusCode::INTERNAL_SERVER_ERROR),
            ),
            Err(VaultFault::Unreadable) => Err(
                ApiError::of("Failed to parse session data", StatusCode::INTERNAL_SERVER_ERROR),
            ),
            Ok(Some(profile)) => Ok(
                UserinfoAfterCache::Hit(ApiSuccess::new(profile, StatusCode::OK)),
            ),
            Ok(None) => Ok(
                UserinfoAfterCache::Miss(
                    UserinfoFindToken {
                        digest: hash_sha256(self.access_token.as_str()),
                        key: self.key,
                    },
                ),
            ),
        }
    }
}

impl UserinfoFindToken {
    /// Takes the row found, if any. An access token whose digest matches no
    /// row ends the operation with status 400.
    pub fn on_token(self, token: Option<OauthToken>) -> (r: Result<UserinfoLoadSession, ApiError>)
        ensures
            match token {
                None => r matches Err(e) && e.is("Invalid access token"@, StatusCode::BAD_REQUEST),
                Some(t) => r matches Ok(next) && next.session_id == t.session_id && next.key
                    == self.key,
            },
    {
        let Some(token) = token else {
            return Err(ApiError::of("Invalid access token", StatusCode::BAD_REQUEST));
        };
        Ok(UserinfoLoadSession { session_id: token.session_id, key: self.key })
    }
}

impl UserinfoLoadSession {
    /// Takes the loaded session. An unknown session, or one without a user,
    /// ends the operation with status 400.
    pub fn on_session(self, session: Option<OauthSession>) -> (r: Result<
        UserinfoLoadUser,
        ApiError,
    >)
        ensures
            match session {
                Some(s) if s.user_id is Some => r matches Ok(next) && Some(next.user_id)
                    == s.user_id && next.key == self.key,
                _ => r matches Err(e) && e.is("Invalid session"@, StatusCode::BAD_REQUEST),
            },
    {
        let Some(session) = session else {
            return Err(ApiError::of("Invalid session", StatusCode::BAD_REQUEST));
        };
        let Some(user_id) = session.user_id else {
            return Err(ApiError::of("Invalid session", StatusCode::BAD_REQUEST));
        };
        Ok(UserinfoLoadUser { user_id, key: self.key })
    }
}

impl UserinfoLoadUser {
    /// Takes the identity provider's description of the user, or none where
    /// it gave none, and puts it in its public shape, to be cached.
    pub fn on_user(self, user: Option<IdpUser>) -> (r: Result<UserinfoCacheStore, ApiError>)
        ensures
            match user {
                None => r matches Err(e) && e.is(
                    "Failed to get user"@,
                    StatusCode::INTERNAL_SERVER_ERROR,
                ),
                Some(u) => r matches Ok(next) && describes(next.profile, u) && next.key
                    == self.key && next.ttl == PROFILE_TTL_SECONDS,
            },
    {
        let Some(user) = user else {
            return Err(ApiError::of("Failed to get user", StatusCode::INTERNAL_SERVER_ERROR));
        };
        Ok(
            UserinfoCacheStore {
                key: self.key,
                ttl: PROFILE_TTL_SECONDS,
                profile: UserinfoResponse {
                    sub: user.id,
                    given_name: or_empty(user.name),
                    family_name: or_empty(user.family_name),
                    gender: or_empty(user.gender),
                    email: or_empty(user.email),
                    created_at: or_empty(user.created_at),
                },
            },
        )
    }
}

impl UserinfoCacheStore {
    /// Ends the operation once the cache has answered: status 200 and the
    /// profile, or status 500 where it could not be cached.
    pub fn finish(self, stored: Result<(), VaultFault>) -> (r: Result<
        ApiSuccess<UserinfoResponse>,
        ApiError,
    >)
        ensures
            match stored {
                Ok(_) => r matches Ok(s) && s.status_code == StatusCode::OK.code() && s.data
                    == self.profile,
                Err(_) => r matches Err(e) && e.is(
                    "Failed to store sub"@,
                    StatusCode::INTERNAL_SERVER_ERROR,
                ),
            },
    {
        match stored {
            Ok(_) => Ok(ApiSuccess::new(self.profile, StatusCode::OK)),
            Err(_) => Err(ApiError::of("Failed to store sub", StatusCode::INTERNAL_SERVER_ERROR)),
        }
    }
}

} // verus!
