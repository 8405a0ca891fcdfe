//! Consent-Info: what the consent page shows about the client of a session
//! that still waits for consent. Nothing is written.
use vstd::prelude::*;
use crate::api_response::{ApiError, ApiSuccess, StatusCode};
use crate::domain::{OauthClient, OauthSession};
use crate::dto::{ConsentInfoRequest, ConsentInfoResponse};

verus! {

pub struct ConsentInfoUseCase {}

/// Waits for the session `session_id` to be loaded.
pub struct ConsentInfoLoadSession {
    pub session_id: u128,
}

/// Waits for the client registered under `slug` to be loaded.
pub struct ConsentInfoLoadClient {
    pub slug: String,
}

impl ConsentInfoUseCase {
    pub fn new() -> Self {
        Self {  }
    }

    /// Begins: the session named by the request is to be loaded.
    pub fn handle(&self, data: ConsentInfoRequest) -> (r: ConsentInfoLoadSession)
        ensures
            r.session_id == data.session_id,
    {
        ConsentInfoLoadSession { session_id: data.session_id }
    }
}

impl ConsentInfoLoadSession {
    /// Takes the loaded session. An unknown session, or one whose consent
    /// already stands, ends the operation with status 400.
    pub fn on_session(self, session: Option<OauthSession>) -> (r: Result<
        ConsentInfoLoadClient,
        ApiError,
    >)
        ensures
            match session {
                None => r matches Err(e) && e.is("Session not found"@, StatusCode::BAD_REQUEST),
                Some(s) => if s.consent_granted_at is Some {
                    r matches Err(e) && e.is(
                        "Consent already granted for this session"@,
                        StatusCode::BAD_REQUEST,
                    )
                } else {
                    r matches Ok(next) && next.slug == s.client_id
                },
            },
    {
        let Some(session) = session else {
            return Err(ApiError::of("Session not found", StatusCode::BAD_REQUEST));
        };
        if session.consent_granted_at.is_some() {
            return Err(
                ApiError::of("Consent already granted for this session", StatusCode::BAD_REQUEST),
            );
        }
        Ok(ConsentInfoLoadClient { slug: session.client_id })
    }
}

impl ConsentInfoLoadClient {
    /// Ends the operation with the client's public description, or with
    /// status 400 where the client is unknown.
    pub fn finish(self, client: Option<OauthClient>) -> (r: Result<
        ApiSuccess<ConsentInfoResponse>,
        ApiError,
    >)
        ensures
            match client {
                None => r matches Err(e) && e.is("Client not found"@, StatusCode::BAD_REQUEST),
                Some(c) => r matches Ok(s) && s.status_code == StatusCode::OK.code()
                    && s.data.client_id == c.slug && s.data.name == c.name && s.data.scopes
                    == c.scopes && s.data.mandatory_scopes == c.mandatory_scopes && s.data.logos
                    == c.logos && s.data.created_at == c.created_at,
            },
    {
        let Some(client) = client else {
            return Err(ApiError::of("Client not found", StatusCode::BAD_REQUEST));
        };
        Ok(
            ApiSuccess::new(
                ConsentInfoResponse {
                    client_id: client.slug,
                    name: client.name,
                    scopes: client.scopes,
                    mandatory_scopes: client.mandatory_scopes,
                    logos: client.logos,
                    created_at: client.created_at,
                },
                StatusCode::OK,
            ),
        )
    }
}

} // verus!
