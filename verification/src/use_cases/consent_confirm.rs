//! Consent-Confirm: the user's choice of scopes is checked against the
//! client's policy, recorded as a consent, and written to the session.
use vstd::prelude::*;
use crate::api_response::{ApiError, ApiSuccess, StatusCode};
use crate::domain::{NewConsent, OauthClient, OauthSession, SessionField};
use crate::dto::{ConsentConfirmRequest, ConsentConfirmResponse};
use crate::ident::{id_text, uuid_text};
use crate::text::{find_absent, first_absent, lemma_first_absent, texts};
use crate::token::current_time;
use vstd::string::StringExecFns;

verus! {

/// What a chosen scope outside the client's allowed scopes is answered with.
pub open spec fn not_allowed_text(scope: Seq<char>) -> Seq<char> {
    "Scope '"@ + scope + "' is not allowed for this client"@
}

/// What a mandatory scope missing from the choice is answered with.
pub open spec fn missing_text(scope: Seq<char>) -> Seq<char> {
    "Mandatory scope '"@ + scope + "' is missing"@
}

/// The message for the first chosen scope that is not allowed or, where all
/// are allowed, for the first mandatory scope that was not chosen.
pub open spec fn scopes_fault(
    allowed: Seq<Seq<char>>,
    mandatory: Seq<Seq<char>>,
    chosen: Seq<Seq<char>>,
) -> Option<Seq<char>> {
    match first_absent(chosen, allowed) {
        Some(i) => Some(not_allowed_text(chosen[i])),
        None => match first_absent(mandatory, chosen) {
            Some(j) => Some(missing_text(mandatory[j])),
            None => None,
        },
    }
}

/// Where a confirmed consent sends the caller: back into Continue, with the
/// user, the session and the new consent.
pub open spec fn continue_url(user_id: u128, session_id: u128, consent_id: u128) -> Seq<char> {
    "/api/v1/auth/authorize?user_id="@ + uuid_text(user_id) + "&session_id="@ + uuid_text(
        session_id,
    ) + "&consent_id="@ + uuid_text(consent_id)
}

pub struct ConsentConfirmUseCase {}

/// Waits for the session `data.session_id` to be loaded.
pub struct ConfirmLoadSession {
    pub data: ConsentConfirmRequest,
}

/// Waits for the client registered under `session.client_id` to be loaded.
pub struct ConfirmLoadClient {
    pub data: ConsentConfirmRequest,
    pub session: OauthSession,
}

/// Waits for `consent` to be created.
pub struct ConfirmInsertConsent {
    pub consent: NewConsent,
    pub user_id: u128,
    pub scopes: Vec<String>,
    pub session: OauthSession,
}

/// Waits for the two `fields` of `session` to be written.
pub struct ConfirmUpdateSession {
    pub session: OauthSession,
    pub fields: [SessionField; 2],
    pub user_id: u128,
    pub consent_id: u128,
}

impl ConsentConfirmUseCase {
    pub fn new() -> Self {
        Self {  }
    }

    /// Checks a choice of scopes against a client's policy: every chosen
    /// scope must be allowed, and every mandatory scope chosen. The first
    /// offender is named in the message.
    pub fn check_scopes(
        &self,
        scopes: &Vec<String>,
        mandatory_scopes: &Vec<String>,
        data_scopes: &Vec<String>,
    ) -> (r: Result<(), ApiError>)
        ensures
            match scopes_fault(texts(scopes@), texts(mandatory_scopes@), texts(data_scopes@)) {
                Some(m) => r matches Err(e) && e.is(m, StatusCode::BAD_REQUEST),
                None => r is Ok,
            },
    {
        proof {
            lemma_first_absent(texts(data_scopes@), texts(scopes@));
            lemma_first_absent(texts(mandatory_scopes@), texts(data_scopes@));
        }
        if let Some(i) = find_absent(data_scopes, scopes) {
            let message = "Scope '".to_owned().concat(data_scopes[i].as_str()).concat(
                "' is not allowed for this client",
            );
            return Err(ApiError::new(message, StatusCode::BAD_REQUEST));
        }
        if let Some(j) = find_absent(mandatory_scopes, data_scopes) {
            let message = "Mandatory scope '".to_owned().concat(
                mandatory_scopes[j].as_str(),
            ).concat("' is missing");
            return Err(ApiError::new(message, StatusCode::BAD_REQUEST));
        }
        Ok(())
    }

    /// Begins: the session named by the request is to be loaded.
    pub fn handle(&self, data: ConsentConfirmRequest) -> (r: ConfirmLoadSession)
        ensures
            r.data == data,
    {
        ConfirmLoadSession { data }
    }
}

impl ConfirmLoadSession {
    /// Takes the loaded session. An unknown session, or one whose consent
    /// already stands, ends the operation with status 400.
    pub fn on_session(self, session: Option<OauthSession>) -> (r: Result<
        ConfirmLoadClient,
        ApiError,
    >)
        ensures
            match session {
                None => r matches Err(e) && e.is("Session not found"@, StatusCode::BAD_REQUEST),
                Some(s) => if s.consent_granted_at is Some {
                    r matches Err(e) && e.is(
                        "Consent already granted for this session"@,
                        StatusCode::BAD_REQUEST,
                    )
                } else {
                    r matches Ok(next) && next.data == self.data && next.session == s
                },
            },
    {
        let Some(session) = session else {
            return Err(ApiError::of("Session not found", StatusCode::BAD_REQUEST));
        };
        if session.consent_granted_at.is_some() {
            return Err(
                ApiError::of("Consent already granted for this session", StatusCode::BAD_REQUEST),
            );
        }
        Ok(ConfirmLoadClient { data: self.data, session })
    }
}

impl ConfirmLoadClient {
    /// Why the choice is refused once the client is known, by its message.
    pub open spec fn fault(self, client: Option<OauthClient>) -> Option<Seq<char>> {
        match client {
            None => Some("Client not found"@),
            Some(c) => match scopes_fault(
                texts(c.scopes@),
                texts(c.mandatory_scopes@),
                texts(self.data.scopes@),
            ) {
                Some(m) => Some(m),
                None => if self.session.user_id is None {
                    Some("Session is not authenticated"@)
                } else {
                    None
                },
            },
        }
    }

    /// Takes the loaded client. The choice goes on exactly when the client is
    /// known, the chosen scopes lie between its mandatory and its allowed
    /// scopes, and the session has a user; otherwise the operation ends with
    /// status 400.
    pub fn on_client(self, client: Option<OauthClient>) -> (r: Result<
        ConfirmInsertConsent,
        ApiError,
    >)
        ensures
            match self.fault(client) {
                Some(m) => r matches Err(e) && e.is(m, StatusCode::BAD_REQUEST),
                None => r matches Ok(next) && next.session == self.session && Some(next.user_id)
                    == self.session.user_id && next.scopes == self.data.scopes
                    && next.consent.client_id == self.session.client_id && next.consent.user_id
                    == next.user_id && next.consent.scopes@ == self.data.scopes@,
            },
    {
        let Some(client) = client else {
            return Err(ApiError::of("Client not found", StatusCode::BAD_REQUEST));
        };
        ConsentConfirmUseCase::new().check_scopes(
            &client.scopes,
            &client.mandatory_scopes,
            &self.data.scopes,
        )?;
        let Some(user_id) = self.session.user_id else {
            return Err(ApiError::of("Session is not authenticated", StatusCode::BAD_REQUEST));
        };
        Ok(
            ConfirmInsertConsent {
                consent: NewConsent {
                    client_id: self.session.client_id.clone(),
                    user_id,
                    scopes: self.data.scopes.clone(),
                },
                user_id,
                scopes: self.data.scopes,
                session: self.session,
            },
        )
    }
}

impl ConfirmInsertConsent {
    /// Takes the identifier of the consent created, or none where the write
    /// failed, and the time. The session is then to take the confirmed scopes
    /// and the time of consent.
    pub fn on_inserted_at(self, inserted: Option<u128>, now: i64) -> (r: Result<
        ConfirmUpdateSession,
        ApiError,
    >)
        ensures
            match inserted {
                None => r matches Err(e) && e.is(
                    "Failed to create consent"@,
                    StatusCode::INTERNAL_SERVER_ERROR,
                ),
                Some(id) => r matches Ok(next) && next.session == (OauthSession {
                    consent_granted_at: Some(now),
                    scopes: self.scopes,
                    ..self.session
                }) && next.fields@ == seq![SessionField::ConsentGrantedAt, SessionField::Scopes]
                    && next.user_id == self.user_id && next.consent_id == id,
            },
    {
        let Some(consent_id) = inserted else {
            return Err(
                ApiError::of("Failed to create consent", StatusCode::INTERNAL_SERVER_ERROR),
            );
        };
        Ok(
            ConfirmUpdateSession {
                session: self.session.confirm_consent(self.scopes, now),
                fields: [SessionField::ConsentGrantedAt, SessionField::Scopes],
                user_id: self.user_id,
                consent_id,
            },
        )
    }

    /// As `on_inserted_at`, at the time the clock shows.
    pub fn on_inserted(self, inserted: Option<u128>) -> (r: Result<ConfirmUpdateSession, ApiError>)
        ensures
            match inserted {
                None => r matches Err(e) && e.is(
                    "Failed to create consent"@,
                    StatusCode::INTERNAL_SERVER_ERROR,
                ),
                Some(id) => r matches Ok(next) && next.session.consent_granted_at is Some && (
                OauthSession { consent_granted_at: None, ..next.session }) == (OauthSession {
                    consent_granted_at: None,
                    scopes: self.scopes,
                    ..self.session
                }) && next.fields@ == seq![SessionField::ConsentGrantedAt, SessionField::Scopes]
                    && next.user_id == self.user_id && next.consent_id == id,
            },
    {
        let now = current_time();
        self.on_inserted_at(inserted, now)
    }
}

impl ConfirmUpdateSession {
    /// Ends the operation once the session store has answered: status 200
    /// and the way back into Continue, or status 500 with the store's
    /// message.
    pub fn finish(self, saved: Result<(), String>) -> (r: Result<
        ApiSuccess<ConsentConfirmResponse>,
        ApiError,
    >)
        ensures
            match saved {
                Ok(_) => r matches Ok(s) && s.status_code == StatusCode::OK.code()
                    && s.data.redirect_url@ == continue_url(
                    self.user_id,
                    self.session.id,
                    self.consent_id,
                ),
                Err(m) => r matches Err(e) && e.error == m && e.status_code
                    == StatusCode::INTERNAL_SERVER_ERROR.code(),
            },
    {
        match saved {
            Ok(_) => {
                let redirect_url = "/api/v1/auth/authorize?user_id=".to_owned().concat(
                    id_text(self.user_id).as_str(),
                ).concat("&session_id=").concat(id_text(self.session.id).as_str()).concat(
                    "&consent_id=",
                ).concat(id_text(self.consent_id).as_str());
                Ok(ApiSuccess::new(ConsentConfirmResponse { redirect_url }, StatusCode::OK))
            },
            Err(m) => Err(ApiError::new(m, StatusCode::INTERNAL_SERVER_ERROR)),
        }
    }
}

} // verus!
