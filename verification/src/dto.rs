//! What the protocol operations receive and answer.
use vstd::prelude::*;

verus! {

/// A pushed authorization request as the client submits it.
#[derive(Clone, Debug)]
pub struct ParRequest {
    pub client_id: String,
    pub client_secret: String,
    pub scope: String,
    pub redirect_uri: String,
    pub response_type: String,
    pub state: String,
    pub code_challenge: String,
    pub code_challenge_method: String,
}

/// The reference handed back for a pushed request, and its lifetime in seconds.
#[derive(Clone, Debug)]
pub struct ParResponse {
    pub request_uri: String,
    pub expires_in: u64,
}

/// The query of the authorize endpoint. With a `session_id` it continues an
/// authorization after login; without one it starts it from a pushed request.
#[derive(Clone, Debug)]
pub struct AuthorizeRequest {
    pub client_id: Option<String>,
    pub uri: Option<String>,
    pub session_id: Option<String>,
    pub user_id: Option<u128>,
    pub auth_token: Option<String>,
    pub consent_id: Option<u128>,
}

/// What is kept under an authorization code until it is redeemed.
#[derive(Clone, Debug)]
pub struct TokenData {
    pub user_id: u128,
    pub session_id: u128,
}

#[derive(Clone, Debug)]
pub struct ConsentConfirmRequest {
    pub session_id: u128,
    pub scopes: Vec<String>,
}

#[derive(Clone, Debug)]
pub struct ConsentConfirmResponse {
    pub redirect_url: String,
}

#[derive(Clone, Debug)]
pub struct ConsentInfoRequest {
    pub session_id: u128,
}

/// What the consent page shows about the client that asks.
#[derive(Clone, Debug)]
pub struct ConsentInfoResponse {
    pub client_id: String,
    pub name: String,
    pub scopes: Vec<String>,
    pub mandatory_scopes: Vec<String>,
    pub logos: Vec<String>,
    pub created_at: i64,
}

/// The claims signed into an access token. The subject is the user's
/// identifier in text; times are seconds since the epoch.
#[derive(Clone, Debug)]
pub struct AccessToken {
    pub scopes: Vec<String>,
    pub sub: String,
    pub exp: u64,
    pub iat: u64,
    pub iss: String,
    pub aud: String,
    pub jti: String,
    pub sid: String,
    pub client_id: String,
    pub auth_time: u64,
}

/// A token request of the authorization-code grant.
#[derive(Clone, Debug)]
pub struct TokenRequest {
    pub client_id: String,
    pub client_secret: String,
    pub code: String,
    pub grant_type: String,
    pub redirect_uri: String,
    pub code_verifier: String,
}

/// A token request of the refresh grant.
#[derive(Clone, Debug)]
pub struct TokenRefreshRequest {
    pub client_id: String,
    pub client_secret: String,
    pub grant_type: String,
    pub refresh_token: String,
}

/// The credentials issued by either grant.
#[derive(Clone, Debug)]
pub struct TokenResponse {
    pub access_token: String,
    pub refresh_token: String,
    pub id_token: String,
}

#[derive(Clone, Debug)]
pub struct UserinfoRequest {
    pub sub: String,
}

/// The public profile of a user.
#[derive(Clone, Debug)]
pub struct UserinfoResponse {
    pub sub: u128,
    pub given_name: String,
    pub family_name: String,
    pub gender: String,
    pub email: String,
    pub created_at: String,
}

} // verus!
