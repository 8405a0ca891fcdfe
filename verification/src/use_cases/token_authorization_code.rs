//! Token, authorization-code grant: a single-use code and its PKCE verifier
//! are exchanged for an access token, a refresh token and an ID token.
use vstd::prelude::*;
use crate::api_response::{ApiError, ApiSuccess, StatusCode};
use crate::domain::{IdPIdTokenPayload, NewToken, OauthClient, OauthSession};
use crate::dto::{TokenData, TokenRequest, TokenResponse};
use crate::ident::{id_text, uuid_text};
use crate::text::same_text;
use crate::text::texts;
use crate::token::{
    access_token_for,
    claims_time_ok,
    current_time,
    envs_fault,
    is_refresh_token,
    issue,
    pkce_challenge,
    unescape_newlines,
    validate_envs,
    verify_pkce,
    Issued,
    SigningKey,
    JTI_CHARS,
};
use crate::vault::VaultFault;

verus! {

/// Whether the caller's client identifier or secret differs from the
/// session's client and its registered secret.
pub open spec fn client_mismatch(
    client_id: Seq<char>,
    client_secret: Seq<char>,
    session: &OauthSession,
    client: &OauthClient,
) -> bool {
    session.client_id@ != client_id || client_secret != client.secret@
}

/// Checks that the caller is the session's client and knows its secret. Both
/// failures give the same answer.
pub fn check_client(
    client_id: &str,
    client_secret: &str,
    session: &OauthSession,
    client: &OauthClient,
) -> (r: Result<(), ApiError>)
    ensures
        client_mismatch(client_id@, client_secret@, session, client) ==> (r matches Err(e) && e.is(
            "Invalid client"@,
            StatusCode::BAD_REQUEST,
        )),
        !client_mismatch(client_id@, client_secret@, session, client) ==> r is Ok,
{
    if !same_text(session.client_id.as_str(), client_id) {
        return Err(ApiError::of("Invalid client", StatusCode::BAD_REQUEST));
    }
    if !same_text(client_secret, client.secret.as_str()) {
        return Err(ApiError::of("Invalid client", StatusCode::BAD_REQUEST));
    }
    Ok(())
}

pub struct TokenAuthorizationCodeUseCase {
    pub jwt_issuer: Option<String>,
    pub jwt_private_key: Option<String>,
}

/// Waits for the entry under `data.code` to be taken from the vault: fetched
/// and deleted in one step.
pub struct TokenTakeCode {
    pub data: TokenRequest,
    pub jwt_iss: String,
    pub signing_key: SigningKey,
}

/// Waits for the session `envelope.session_id` to be loaded.
pub struct TokenLoadSession {
    pub data: TokenRequest,
    pub envelope: TokenData,
    pub jwt_iss: String,
    pub signing_key: SigningKey,
}

/// Waits for the client registered under `session.client_id` to be loaded.
pub struct TokenLoadClient {
    pub data: TokenRequest,
    pub envelope: TokenData,
    pub session: OauthSession,
    pub jwt_iss: String,
    pub signing_key: SigningKey,
}

/// Waits for the identity provider to mint an ID token for `payload`.
pub struct TokenMintIdToken {
    pub payload: IdPIdTokenPayload,
    pub envelope: TokenData,
    pub session: OauthSession,
    pub jwt_iss: String,
    pub signing_key: SigningKey,
}

/// Waits for `token` to be created. `response` is what the caller receives
/// once it is.
pub struct TokenInsert {
    pub token: NewToken,
    pub response: TokenResponse,
}

impl TokenAuthorizationCodeUseCase {
    pub fn new(jwt_issuer: Option<String>, jwt_private_key: Option<String>) -> (r: Self)
        ensures
            r.jwt_issuer == jwt_issuer,
            r.jwt_private_key == jwt_private_key,
    {
        Self { jwt_issuer, jwt_private_key }
    }

    /// Checks the grant type.
    pub fn validate_request(&self, data: &TokenRequest) -> (r: Result<(), ApiError>)
        ensures
            data.grant_type@ == "authorization_code"@ ==> r is Ok,
            data.grant_type@ != "authorization_code"@ ==> (r matches Err(e) && e.is(
                "Invalid grant type"@,
                StatusCode::BAD_REQUEST,
            )),
    {
        if !same_text(data.grant_type.as_str(), "authorization_code") {
            return Err(ApiError::of("Invalid grant type", StatusCode::BAD_REQUEST));
        }
        Ok(())
    }

    /// Checks the caller against the session and the registered client.
    pub fn validate_client(&self, data: &TokenRequest, session: &OauthSession, client: &OauthClient) -> (r:
        Result<(), ApiError>)
        ensures
            client_mismatch(data.client_id@, data.client_secret@, session, client) ==> (
            r matches Err(e) && e.is("Invalid client"@, StatusCode::BAD_REQUEST)),
            !client_mismatch(data.client_id@, data.client_secret@, session, client) ==> r is Ok,
    {
        check_client(data.client_id.as_str(), data.client_secret.as_str(), session, client)
    }

    /// Begins the grant. A wrong grant type ends it with status 400, a
    /// faulty signing configuration with status 500.
    pub fn handle(self, data: TokenRequest) -> (r: Result<TokenTakeCode, ApiError>)
        ensures
            if data.grant_type@ != "authorization_code"@ {
                r matches Err(e) && e.is("Invalid grant type"@, StatusCode::BAD_REQUEST)
            } else {
                match envs_fault(self.jwt_issuer, self.jwt_private_key) {
                    Some(m) => r matches Err(e) && e.is(m, StatusCode::INTERNAL_SERVER_ERROR),
                    None => r matches Ok(next) && next.data == data && Some(next.jwt_iss)
                        == self.jwt_issuer && next.signing_key.pem@ == unescape_newlines(
                        self.jwt_private_key->0@,
                    ),
                }
            },
    {
        self.validate_request(&data)?;
        let (jwt_iss, signing_key) = validate_envs(self.jwt_issuer, self.jwt_private_key)?;
        Ok(TokenTakeCode { data, jwt_iss, signing_key })
    }
}

impl TokenTakeCode {
    /// Takes what the vault answered. A code that is unknown, expired or
    /// already redeemed ends the grant with status 400; a vault that fails
    /// ends it with status 500.
    pub fn on_code(self, taken: Result<Option<TokenData>, VaultFault>) -> (r: Result<
        TokenLoadSession,
        ApiError,
    >)
        ensures
            match taken {
                Err(VaultFault::Unavailable) => r matches Err(e) && e.is(
                    "Getting cache connection"@,
                    StatusCode::INTERNAL_SERVER_ERROR,
                ),
                Err(VaultFault::Unreadable) => r matches Err(e) && e.is(
                    "Failed to parse session data"@,
                    StatusCode::INTERNAL_SERVER_ERROR,
                ),
                Err(VaultFault::Failed) => r matches Err(e) && e.is(
                    "Failed to read authorization code"@,
                    StatusCode::INTERNAL_SERVER_ERROR,
                ),
                Ok(None) => r matches Err(e) && e.is(
                    "Invalid authorization code"@,
                    StatusCode::BAD_REQUEST,
                ),
                Ok(Some(envelope)) => r matches Ok(next) && next.data == self.data
                    && next.envelope == envelope && next.jwt_iss == self.jwt_iss
                    && next.signing_key == self.signing_key,
            },
    {
        match taken {
            Err(VaultFault::Unavailable) => Err(
                ApiError::of("Getting cache connection", StatusCode::INTERNAL_SERVER_ERROR),
            ),
            Err(VaultFault::Unreadable) => Err(
                ApiError::of("Failed to parse session data", StatusCode::INTERNAL_SERVER_ERROR),
            ),
            Err(VaultFault::Failed) => Err(
                ApiError::of(
                    "Failed to read authorization code",
                    StatusCode::INTERNAL_SERVER_ERROR,
                ),
            ),
            Ok(None) => Err(ApiError::of("Invalid authorization code", StatusCode::BAD_REQUEST)),
            Ok(Some(envelope)) => Ok(
                TokenLoadSession {
                    data: self.data,
                    envelope,
                    jwt_iss: self.jwt_iss,
                    signing_key: self.signing_key,
                },
            ),
        }
    }
}

impl TokenLoadSession {
    /// How the step ends for the session that was loaded: the grant goes on
    /// only where the verifier hashes, character for character, to the
    /// challenge the session was opened with.
    pub open spec fn leads_to(
        self,
        session: Option<OauthSession>,
        r: Result<TokenLoadClient, ApiError>,
    ) -> bool {
        match session {
            None => r matches Err(e) && e.is("Session not found"@, StatusCode::BAD_REQUEST),
            Some(s) => if pkce_challenge(self.data.code_verifier@) == s.code_challenge@ {
                r matches Ok(next) && next.data == self.data && next.envelope == self.envelope
                    && next.session == s && next.jwt_iss == self.jwt_iss && next.signing_key
                    == self.signing_key
            } else {
                r matches Err(e) && e.is("Invalid code challenge"@, StatusCode::BAD_REQUEST)
            },
        }
    }

    /// Takes the loaded session and decides as `leads_to` says.
    pub fn on_session(self, session: Option<OauthSession>) -> (r: Result<TokenLoadClient, ApiError>)
        ensures
            self.leads_to(session, r),
    {
        let Some(session) = session else {
            return Err(ApiError::of("Session not found", StatusCode::BAD_REQUEST));
        };
        if !verify_pkce(self.data.code_verifier.as_str(), session.code_challenge.as_str()) {
            return Err(ApiError::of("Invalid code challenge", StatusCode::BAD_REQUEST));
        }
        Ok(
            TokenLoadClient {
                data: self.data,
                envelope: self.envelope,
                session,
                jwt_iss: self.jwt_iss,
                signing_key: self.signing_key,
            },
        )
    }
}

impl TokenLoadClient {
    /// Takes the loaded client. An unknown client, another client's
    /// identifier or a wrong secret end the grant with status 400.
    pub fn on_client(self, client: Option<OauthClient>) -> (r: Result<TokenMintIdToken, ApiError>)
        ensures
            match client {
                None => r matches Err(e) && e.is("Client not found"@, StatusCode::BAD_REQUEST),
                Some(c) => if client_mismatch(
                    self.data.client_id@,
                    self.data.client_secret@,
                    &self.session,
                    &c,
                ) {
                    r matches Err(e) && e.is("Invalid client"@, StatusCode::BAD_REQUEST)
                } else {
                    r matches Ok(next) && next.payload.user_id@ == uuid_text(
                        self.envelope.user_id,
                    ) && next.payload.client_id == self.session.client_id && next.payload.scopes@
                        == self.session.scopes@ && next.envelope == self.envelope && next.session
                        == self.session && next.jwt_iss == self.jwt_iss && next.signing_key
                        == self.signing_key
                },
            },
    {
        let Some(client) = client else {
            return Err(ApiError::of("Client not found", StatusCode::BAD_REQUEST));
        };
        check_client(
            self.data.client_id.as_str(),
            self.data.client_secret.as_str(),
            &self.session,
            &client,
        )?;
        Ok(
            TokenMintIdToken {
                payload: IdPIdTokenPayload {
                    user_id: id_text(self.envelope.user_id),
                    client_id: self.session.client_id.clone(),
                    scopes: self.session.scopes.clone(),
                },
                envelope: self.envelope,
                session: self.session,
                jwt_iss: self.jwt_iss,
                signing_key: self.signing_key,
            },
        )
    }
}

impl TokenMintIdToken {
    /// The row to create for issued credentials: the two digests, under the
    /// session.
    pub fn record(self, issued: Issued) -> (r: TokenInsert)
        ensures
            r.response == issued.response,
            r.token.session_id == self.envelope.session_id,
            r.token.access_token == issued.access_token_digest,
            r.token.refresh_token == issued.refresh_token_digest,
    {
        TokenInsert {
            token: NewToken {
                session_id: self.envelope.session_id,
                access_token: issued.access_token_digest,
                refresh_token: issued.refresh_token_digest,
            },
            response: issued.response,
        }
    }

    /// How the step ends for the identity provider's answer at `now`. A
    /// refusal of the provider is passed on as it is. Otherwise the access
    /// token is the RS256 token of the session's scopes, user, session and
    /// client, issued at `now` under some token identifier of 128
    /// characters; the row to create holds the digests of the tokens handed
    /// out, never the tokens. Where there is no such token, or `now` cannot
    /// be written, the grant ends with status 500.
    pub open spec fn issues(
        self,
        id_token: Result<String, ApiError>,
        now: i64,
        r: Result<TokenInsert, ApiError>,
    ) -> bool {
        match id_token {
            Err(refusal) => r matches Err(e) && e == refusal,
            Ok(t) => if claims_time_ok(now) {
                exists|jti: Seq<char>|
                    jti.len() == JTI_CHARS && self.recorded(
                        #[trigger] access_token_for(
                            texts(self.session.scopes@),
                            now,
                            self.jwt_iss@,
                            uuid_text(self.envelope.session_id),
                            self.envelope.user_id,
                            self.session.client_id@,
                            jti,
                            self.signing_key.bytes(),
                        ),
                        t,
                        r,
                    )
            } else {
                self.recorded(None, t, r)
            },
        }
    }

    /// What the step gave, for the access token `expected` that signing was
    /// to give.
    pub open spec fn recorded(
        self,
        expected: Option<Seq<char>>,
        id_token: String,
        r: Result<TokenInsert, ApiError>,
    ) -> bool {
        match expected {
            Some(a) => r matches Ok(next) && next.response.access_token@ == a
                && next.response.id_token == id_token && is_refresh_token(
                next.response.refresh_token@,
            ) && next.token.session_id == self.envelope.session_id && next.token.access_token@
                == crate::hasher::sha256_hex(next.response.access_token@)
                && next.token.refresh_token@ == crate::hasher::sha256_hex(
                next.response.refresh_token@,
            ),
            None => r matches Err(e) && e.is(
                "Failed to generate access token"@,
                StatusCode::INTERNAL_SERVER_ERROR,
            ),
        }
    }

    /// Takes the identity provider's answer and the time, and issues as
    /// `issues` says.
    pub fn on_id_token_at(self, id_token: Result<String, ApiError>, now: i64) -> (r: Result<
        TokenInsert,
        ApiError,
    >)
        ensures
            self.issues(id_token, now, r),
    {
        let id_token = id_token?;
        let issued = issue(
            id_token,
            self.session.scopes.clone(),
            now,
            self.jwt_iss.clone(),
            self.envelope.session_id,
            self.envelope.user_id,
            self.session.client_id.clone(),
            &self.signing_key,
        )?;
        Ok(self.record(issued))
    }

    /// As `on_id_token_at`, at the time the clock shows.
    pub fn on_id_token(self, id_token: Result<String, ApiError>) -> (r: Result<
        TokenInsert,
        ApiError,
    >)
        ensures
            exists|now: i64| self.issues(id_token, now, r),
    {
        let now = current_time();
        self.on_id_token_at(id_token, now)
    }
}

impl TokenInsert {
    /// Ends the grant once the token store has answered: status 200 and the
    /// credentials, or status 500 where the row could not be created.
    pub fn finish(self, inserted: bool) -> (r: Result<ApiSuccess<TokenResponse>, ApiError>)
        ensures
            inserted ==> (r matches Ok(s) && s.status_code == StatusCode::OK.code() && s.data
                == self.response),
            !inserted ==> (r matches Err(e) && e.is(
                "Failed to create token"@,
                StatusCode::INTERNAL_SERVER_ERROR,
            )),
    {
        if !inserted {
            return Err(ApiError::of("Failed to create token", StatusCode::INTERNAL_SERVER_ERROR));
        }
        Ok(ApiSuccess::new(self.response, StatusCode::OK))
    }
}

} // verus!
