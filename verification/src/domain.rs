//! The durable records and what the identity provider exchanges. Identifiers
//! are 128-bit UUIDs, times are seconds since the epoch.
use vstd::prelude::*;
use crate::api_response::{ApiError, StatusCode};

verus! {

/// A registered client. `slug` is its public identifier.
#[derive(Clone, Debug)]
pub struct OauthClient {
    pub id: u128,
    pub name: String,
    pub slug: String,
    pub secret: String,
    pub urls: Vec<String>,
    pub scopes: Vec<String>,
    pub mandatory_scopes: Vec<String>,
    pub status: i32,
    pub logos: Vec<String>,
    pub created_at: i64,
    pub updated_at: i64,
}

/// A user's recorded approval of a client for a set of scopes.
#[derive(Clone, Debug)]
pub struct OauthConsent {
    pub id: u128,
    pub client_id: String,
    pub user_id: u128,
    pub scopes: Vec<String>,
    pub status: i32,
    pub created_at: i64,
    pub updated_at: i64,
}

/// An authorization in flight or completed.
#[derive(Clone, Debug)]
pub struct OauthSession {
    pub id: u128,
    pub client_id: String,
    pub user_id: Option<u128>,
    pub scopes: Vec<String>,
    pub redirect_uri: String,
    pub state: String,
    pub response_type: String,
    pub code_challenge: String,
    pub code_challenge_method: String,
    pub status: i32,
    pub consent_granted_at: Option<i64>,
    pub created_at: i64,
    pub updated_at: i64,
}

/// What Authorize hands to the session store: a session with no user and no
/// consent yet. The store assigns the identifier and the timestamps.
#[derive(Clone, Debug)]
pub struct NewSession {
    pub client_id: String,
    pub response_type: String,
    pub scopes: Vec<String>,
    pub redirect_uri: String,
    pub state: String,
    pub code_challenge: String,
    pub code_challenge_method: String,
}

/// What Consent-Confirm hands to the consent store.
#[derive(Clone, Debug)]
pub struct NewConsent {
    pub client_id: String,
    pub user_id: u128,
    pub scopes: Vec<String>,
}

/// What the token grants hand to the token store: the two digests.
#[derive(Clone, Debug)]
pub struct NewToken {
    pub session_id: u128,
    pub access_token: String,
    pub refresh_token: String,
}

/// A field of a session that a named transition may write.
#[derive(Clone, Copy, Debug, PartialEq, Eq, Structural)]
pub enum SessionField {
    UserId,
    Scopes,
    ConsentGrantedAt,
}

impl OauthSession {
    /// Binds the authenticated user. A session takes a user once: one that
    /// has a user refuses, whoever is offered.
    pub fn bind_user(self, user_id: u128) -> (r: Result<OauthSession, ApiError>)
        ensures
            match self.user_id {
                Some(_) => r matches Err(e) && e.is(
                    "User already set for this session"@,
                    StatusCode::UNPROCESSABLE_ENTITY,
                ),
                None => r matches Ok(s) && s == (OauthSession { user_id: Some(user_id), ..self }),
            },
    {
        if self.user_id.is_some() {
            return Err(
                ApiError::of("User already set for this session", StatusCode::UNPROCESSABLE_ENTITY),
            );
        }
        let mut s = self;
        s.user_id = Some(user_id);
        Ok(s)
    }

    /// Records that consent stands as of `now`.
    pub fn grant_consent(self, now: i64) -> (r: OauthSession)
        ensures
            r == (OauthSession { consent_granted_at: Some(now), ..self }),
    {
        let mut s = self;
        s.consent_granted_at = Some(now);
        s
    }

    /// Records a confirmed consent: the scopes become the confirmed ones and
    /// consent stands as of `now`.
    pub fn confirm_consent(self, scopes: Vec<String>, now: i64) -> (r: OauthSession)
        ensures
            r == (OauthSession { consent_granted_at: Some(now), scopes: scopes, ..self }),
    {
        let mut s = self;
        s.consent_granted_at = Some(now);
        s.scopes = scopes;
        s
    }
}

/// An issued token pair. Both token fields hold digests, never raw tokens.
#[derive(Clone, Debug)]
pub struct OauthToken {
    pub id: u128,
    pub session_id: u128,
    pub access_token: String,
    pub refresh_token: String,
    pub status: i32,
    pub created_at: i64,
    pub updated_at: i64,
}

#[derive(Clone, Debug)]
pub struct IdPIdTokenResponse {
    pub id_token: String,
}

#[derive(Clone, Debug)]
pub struct IdPIdTokenRequest {
    pub user_id: String,
    pub client_id: String,
    pub scopes: Vec<String>,
}

#[derive(Clone, Debug)]
pub struct IdpVerifyCredentialRequest {
    pub token: String,
}

#[derive(Clone, Debug)]
pub struct IdpVerifyCredentialResponse {
    pub verified: bool,
}

/// A user as the identity provider describes them.
#[derive(Clone, Debug)]
pub struct IdpUser {
    pub id: u128,
    pub name: Option<String>,
    pub family_name: Option<String>,
    pub email: Option<String>,
    pub birthdate: Option<String>,
    pub gender: Option<String>,
    pub status: Option<i64>,
    pub created_at: Option<String>,
    pub updated_at: Option<String>,
}

#[derive(Clone, Debug)]
pub struct IdPIdToken {
    pub id_token: String,
}

/// What the identity provider needs to mint an ID token.
#[derive(Clone, Debug)]
pub struct IdPIdTokenPayload {
    pub user_id: String,
    pub client_id: String,
    pub scopes: Vec<String>,
}

} // verus!
