//! Token, refresh grant: a refresh token is exchanged for new credentials,
//! and the stored digests are overwritten so that the old token dies.
use vstd::prelude::*;
use crate::api_response::{ApiError, ApiSuccess, StatusCode};
use crate::domain::{IdPIdTokenPayload, OauthClient, OauthSession, OauthToken};
use crate::dto::{TokenRefreshRequest, TokenResponse};
use crate::hasher::{hash_sha256, sha256_hex};
use crate::ident::{id_text, uuid_text};
use crate::text::{contains_text, same_text, texts};
use crate::token::{
    access_token_for,
    claims_time_ok,
    current_time,
    envs_fault,
    is_refresh_token,
    issue,
    unescape_newlines,
    validate_envs,
    Issued,
    SigningKey,
    JTI_CHARS,
};
use crate::use_cases::token_authorization_code::{check_client, client_mismatch};

verus! {

/// The scope a session must hold for its tokens to be refreshed.
pub open spec fn offline_access() -> Seq<char> {
    "offline_access"@
}

pub struct TokenRefreshUseCase {
    pub jwt_issuer: Option<String>,
    pub jwt_private_key: Option<String>,
}

/// Waits for the token row whose refresh digest is `digest` to be found.
pub struct RefreshFindToken {
    pub digest: String,
    pub data: TokenRefreshRequest,
    pub jwt_iss: String,
    pub signing_key: SigningKey,
}

/// Waits for the session `token.session_id` to be loaded.
pub struct RefreshLoadSession {
    pub token: OauthToken,
    pub data: TokenRefreshRequest,
    pub jwt_iss: String,
    pub signing_key: SigningKey,
}

/// Waits for the client registered under `session.client_id` to be loaded.
pub struct RefreshLoadClient {
    pub token: OauthToken,
    pub session: OauthSession,
    pub user_id: u128,
    pub data: TokenRefreshRequest,
    pub jwt_iss: String,
    pub signing_key: SigningKey,
}

/// Waits for the identity provider to mint an ID token for `payload`.
pub struct RefreshMintIdToken {
    pub payload: IdPIdTokenPayload,
    pub token: OauthToken,
    pub session: OauthSession,
    pub user_id: u128,
    pub jwt_iss: String,
    pub signing_key: SigningKey,
}

/// Waits for the two digests of the row `token_id` to be overwritten, in one
/// step. `response` is what the caller receives once they are.
pub struct RefreshRotate {
    pub token_id: u128,
    pub access_token: String,
    pub refresh_token: String,
    pub response: TokenResponse,
}

impl TokenRefreshUseCase {
    pub fn new(jwt_issuer: Option<String>, jwt_private_key: Option<String>) -> (r: Self)
        ensures
            r.jwt_issuer == jwt_issuer,
            r.jwt_private_key == jwt_private_key,
    {
        Self { jwt_issuer, jwt_private_key }
    }

    /// Checks the grant type.
    pub fn validate_request(&self, data: &TokenRefreshRequest) -> (r: Result<(), ApiError>)
        ensures
            data.grant_type@ == "refresh_token"@ ==> r is Ok,
            data.grant_type@ != "refresh_token"@ ==> (r matches Err(e) && e.is(
                "Invalid grant type"@,
                StatusCode::BAD_REQUEST,
            )),
    {
        if !same_text(data.grant_type.as_str(), "refresh_token") {
            return Err(ApiError::of("Invalid grant type", StatusCode::BAD_REQUEST));
        }
        Ok(())
    }

    /// Checks the caller against the session and the registered client.
    pub fn validate_client(
        &self,
        data: &TokenRefreshRequest,
        session: &OauthSession,
        client: &OauthClient,
    ) -> (r: Result<(), ApiError>)
        ensures
            client_mismatch(data.client_id@, data.client_secret@, session, client) ==> (
            r matches Err(e) && e.is("Invalid client"@, StatusCode::BAD_REQUEST)),
            !client_mismatch(data.client_id@, data.client_secret@, session, client) ==> r is Ok,
    {
        check_client(data.client_id.as_str(), data.client_secret.as_str(), session, client)
    }

    /// Begins the grant. A wrong grant type ends it with status 400, a
    /// faulty signing configuration with status 500. Otherwise the token row
    /// is sought by the digest of the refresh token presented.
    pub fn handle(self, data: TokenRefreshRequest) -> (r: Result<RefreshFindToken, ApiError>)
        ensures
            if data.grant_type@ != "refresh_token"@ {
                r matches Err(e) && e.is("Invalid grant type"@, StatusCode::BAD_REQUEST)
            } else {
                match envs_fault(self.jwt_issuer, self.jwt_private_key) {
                    Some(m) => r matches Err(e) && e.is(m, StatusCode::INTERNAL_SERVER_ERROR),
                    None => r matches Ok(next) && next.data == data && next.digest@ == sha256_hex(
                        data.refresh_token@,
                    ) && Some(next.jwt_iss) == self.jwt_issuer && next.signing_key.pem@
                        == unescape_newlines(self.jwt_private_key->0@),
                }
            },
    {
        self.validate_request(&data)?;
        let (jwt_iss, signing_key) = validate_envs(self.jwt_issuer, self.jwt_private_key)?;
        let digest = hash_sha256(data.refresh_token.as_str());
        Ok(RefreshFindToken { digest, data, jwt_iss, signing_key })
    }
}

impl RefreshFindToken {
    /// How the step ends for the row found, if any: a refresh token whose
    /// digest matches no row ends the grant with status 400.
    pub open spec fn answers(
        self,
        token: Option<OauthToken>,
        r: Result<RefreshLoadSession, ApiError>,
    ) -> bool {
        match token {
            None => r matches Err(e) && e.is("Invalid refresh token"@, StatusCode::BAD_REQUEST),
            Some(t) => r matches Ok(next) && next.token == t && next.data == self.data
                && next.jwt_iss == self.jwt_iss && next.signing_key == self.signing_key,
        }
    }

    /// Takes the row found, if any, and decides as `answers` says.
    pub fn on_token(self, token: Option<OauthToken>) -> (r: Result<RefreshLoadSession, ApiError>)
        ensures
            self.answers(token, r),
    {
        let Some(token) = token else {
            return Err(ApiError::of("Invalid refresh token", StatusCode::BAD_REQUEST));
        };
        Ok(
            RefreshLoadSession {
                token,
                data: self.data,
                jwt_iss: self.jwt_iss,
                signing_key: self.signing_key,
            },
        )
    }
}

impl RefreshLoadSession {
    /// Why the session found does not allow a refresh, by its message.
    pub open spec fn fault(session: Option<OauthSession>) -> Option<Seq<char>> {
        match session {
            None => Some("Session not found"@),
            Some(s) => if !texts(s.scopes@).contains(offline_access()) {
                Some("offline_access is required for refresh token"@)
            } else if s.user_id is None {
                Some("Session is not authenticated"@)
            } else {
                None
            },
        }
    }

    /// Takes the loaded session. The grant goes on only for a session that
    /// holds the scope `offline_access` and has a user.
    pub fn on_session(self, session: Option<OauthSession>) -> (r: Result<
        RefreshLoadClient,
        ApiError,
    >)
        ensures
            match Self::fault(session) {
                Some(m) => r matches Err(e) && e.is(m, StatusCode::BAD_REQUEST),
                None => r matches Ok(next) && Some(next.session) == session && Some(next.user_id)
                    == next.session.user_id && next.token == self.token && next.data == self.data
                    && next.jwt_iss == self.jwt_iss && next.signing_key == self.signing_key,
            },
    {
        let Some(session) = session else {
            return Err(ApiError::of("Session not found", StatusCode::BAD_REQUEST));
        };
        if !contains_text(&session.scopes, "offline_access") {
            return Err(
                ApiError::of(
                    "offline_access is required for refresh token",
                    StatusCode::BAD_REQUEST,
                ),
            );
        }
        let Some(user_id) = session.user_id else {
            return Err(ApiError::of("Session is not authenticated", StatusCode::BAD_REQUEST));
        };
        Ok(
            RefreshLoadClient {
                token: self.token,
                session,
                user_id,
                data: self.data,
                jwt_iss: self.jwt_iss,
                signing_key: self.signing_key,
            },
        )
    }
}

impl RefreshLoadClient {
    /// Takes the loaded client. An unknown client, another client's
    /// identifier or a wrong secret end the grant with status 400.
    pub fn on_client(self, client: Option<OauthClient>) -> (r: Result<
        RefreshMintIdToken,
        ApiError,
    >)
        ensures
            match client {
                None => r matches Err(e) && e.is("Client not found"@, StatusCode::BAD_REQUEST),
                Some(c) => if client_mismatch(
                    self.data.client_id@,
                    self.data.client_secret@,
                    &self.session,
                    &c,
                ) {
                    r matches Err(e) && e.is("Invalid client"@, StatusCode::BAD_REQUEST)
                } else {
                    r matches Ok(next) && next.payload.user_id@ == uuid_text(self.user_id)
                        && next.payload.client_id == self.session.client_id && next.payload.scopes@
                        == self.session.scopes@ && next.token == self.token && next.session
                        == self.session && next.user_id == self.user_id && next.jwt_iss
                        == self.jwt_iss && next.signing_key == self.signing_key
                },
            },
    {
        let Some(client) = client else {
            return Err(ApiError::of("Client not found", StatusCode::BAD_REQUEST));
        };
        check_client(
            self.data.client_id.as_str(),
            self.data.client_secret.as_str(),
            &self.session,
            &client,
        )?;
        Ok(
            RefreshMintIdToken {
                payload: IdPIdTokenPayload {
                    user_id: id_text(self.user_id),
                    client_id: self.session.client_id.clone(),
                    scopes: self.session.scopes.clone(),
                },
                token: self.token,
                session: self.session,
                user_id: self.user_id,
                jwt_iss: self.jwt_iss,
                signing_key: self.signing_key,
            },
        )
    }
}

impl RefreshMintIdToken {
    /// The rotation for issued credentials: the row keeps its identifier and
    /// takes the two new digests.
    pub fn rotation(self, issued: Issued) -> (r: RefreshRotate)
        ensures
            r.response == issued.response,
            r.token_id == self.token.id,
            r.access_token == issued.access_token_digest,
            r.refresh_token == issued.refresh_token_digest,
    {
        RefreshRotate {
            token_id: self.token.id,
            access_token: issued.access_token_digest,
            refresh_token: issued.refresh_token_digest,
            response: issued.response,
        }
    }

    /// How the step ends for the identity provider's answer at `now`. A
    /// refusal of the provider is passed on as it is. Otherwise the access
    /// token is the RS256 token of the session's scopes, user, session and
    /// client, issued at `now` under some token identifier of 128
    /// characters; the row that was found is to take the digests of the new
    /// tokens. Where there is no such token, or `now` cannot be written, the
    /// grant ends with status 500.
    pub open spec fn issues(
        self,
        id_token: Result<String, ApiError>,
        now: i64,
        r: Result<RefreshRotate, ApiError>,
    ) -> bool {
        match id_token {
            Err(refusal) => r matches Err(e) && e == refusal,
            Ok(t) => if claims_time_ok(now) {
                exists|jti: Seq<char>|
                    jti.len() == JTI_CHARS && self.rotates(
                        #[trigger] access_token_for(
                            texts(self.session.scopes@),
                            now,
                            self.jwt_iss@,
                            uuid_text(self.session.id),
                            self.user_id,
                            self.session.client_id@,
                            jti,
                            self.signing_key.bytes(),
                        ),
                        t,
                        r,
                    )
            } else {
                self.rotates(None, t, r)
            },
        }
    }

    /// What the step gave, for the access token `expected` that signing was
    /// to give.
    pub open spec fn rotates(
        self,
        expected: Option<Seq<char>>,
        id_token: String,
        r: Result<RefreshRotate, ApiError>,
    ) -> bool {
        match expected {
            Some(a) => r matches Ok(next) && next.response.access_token@ == a
                && next.response.id_token == id_token && is_refresh_token(
                next.response.refresh_token@,
            ) && next.token_id == self.token.id && next.access_token@ == sha256_hex(
                next.response.access_token@,
            ) && next.refresh_token@ == sha256_hex(next.response.refresh_token@),
            None => r matches Err(e) && e.is(
                "Failed to generate access token"@,
                StatusCode::INTERNAL_SERVER_ERROR,
            ),
        }
    }

    /// Takes the identity provider's answer and the time, and issues as
    /// `issues` says.
    pub fn on_id_token_at(self, id_token: Result<String, ApiError>, now: i64) -> (r: Result<
        RefreshRotate,
        ApiError,
    >)
        ensures
            self.issues(id_token, now, r),
    {
        let id_token = id_token?;
        let issued = issue(
            id_token,
            self.session.scopes.clone(),
            now,
            self.jwt_iss.clone(),
            self.session.id,
            self.user_id,
            self.session.client_id.clone(),
            &self.signing_key,
        )?;
        Ok(self.rotation(issued))
    }

    /// As `on_id_token_at`, at the time the clock shows.
    pub fn on_id_token(self, id_token: Result<String, ApiError>) -> (r: Result<
        RefreshRotate,
        ApiError,
    >)
        ensures
            exists|now: i64| self.issues(id_token, now, r),
    {
        let now = current_time();
        self.on_id_token_at(id_token, now)
    }
}

impl RefreshRotate {
    /// Ends the grant once the token store has answered: status 200 and the
    /// new credentials, or status 500 where the row could not be rewritten.
    pub fn finish(self, saved: bool) -> (r: Result<ApiSuccess<TokenResponse>, ApiError>)
        ensures
            saved ==> (r matches Ok(s) && s.status_code == StatusCode::OK.code() && s.data
                == self.response),
            !saved ==> (r matches Err(e) && e.is(
                "Failed to save token"@,
                StatusCode::INTERNAL_SERVER_ERROR,
            )),
    {
        if !saved {
            return Err(ApiError::of("Failed to save token", StatusCode::INTERNAL_SERVER_ERROR));
        }
        Ok(ApiSuccess::new(self.response, StatusCode::OK))
    }
}

} // verus!
