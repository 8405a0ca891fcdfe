//! Continue: after login, the authenticated user is bound to the session and,
//! once consent stands, a single-use authorization code is minted.
use vstd::prelude::*;
use crate::api_response::{ApiError, ApiSuccess, StatusCode};
use crate::domain::{OauthConsent, OauthSession, SessionField};
use crate::dto::{AuthorizeRequest, TokenData};
use crate::ident::{id_text, new_id, parse_id, uuid_parse, uuid_text};
use crate::text::same_text;
use crate::token::current_time;
use crate::vault::{no_connection_text, VaultFault};
use vstd::string::StringExecFns;

verus! {

/// Seconds an authorization code stays redeemable.
pub const CODE_TTL_SECONDS: u64 = 120;

/// What the consent store answers when no consent matches.
pub open spec fn consent_absent_text() -> Seq<char> {
    "Consent not found"@
}

/// The first thing the query lacks, by its message.
pub open spec fn query_fault(data: &AuthorizeRequest) -> Option<Seq<char>> {
    if data.auth_token is None && data.consent_id is None {
        Some("Missing auth token or consent id"@)
    } else if data.session_id is None {
        Some("Missing session id"@)
    } else if data.user_id is None {
        Some("Missing user id"@)
    } else {
        None
    }
}

/// The redirect that hands a code back to the client.
pub open spec fn code_redirect(redirect_uri: Seq<char>, code: Seq<char>, state: Seq<char>) -> Seq<
    char,
> {
    redirect_uri + "?code="@ + code + "&state="@ + state
}

pub struct AuthorizeContinueUseCase {
    pub consent_page_url: String,
}

/// Waits for the session `session_id` to be loaded.
pub struct ContinueLoadSession {
    pub session_id: u128,
    pub user_id: u128,
    pub consent_id: Option<u128>,
    pub consent_page_url: String,
}

/// Waits for the consent `consent_id` to be loaded.
pub struct ContinueLoadConsent {
    pub consent_id: u128,
    pub user_id: u128,
    pub session: OauthSession,
}

/// Waits for `session.user_id` to be written, on the condition that the
/// stored session has no user yet.
pub struct ContinueBindUser {
    pub session: OauthSession,
    pub field: SessionField,
    pub user_id: u128,
    pub consent_page_url: String,
}

/// Waits for the consent of `user_id` to the session's client to be looked up.
pub struct ContinueFindConsent {
    pub session: OauthSession,
    pub user_id: u128,
    pub consent_page_url: String,
}

/// Waits for `session.consent_granted_at` to be written.
pub struct ContinueMarkConsent {
    pub session: OauthSession,
    pub field: SessionField,
    pub user_id: u128,
}

/// Waits for `data` to be stored in the vault under `code` for `ttl` seconds.
pub struct ContinueStoreCode {
    pub code: String,
    pub data: TokenData,
    pub ttl: u64,
    pub redirect_uri: String,
    pub state: String,
}

/// Where a continuation goes once the session is loaded.
pub enum ContinueAfterSession {
    /// A consent was named: it is checked against the session.
    CheckConsent(ContinueLoadConsent),
    /// No consent was named: the user is bound first.
    BindUser(ContinueBindUser),
}

/// Where a continuation goes once the consent lookup has answered.
pub enum ContinueAfterLookup {
    /// The user never consented to this client: the caller is sent to the
    /// consent page. This ends the operation, and is no failure.
    NeedsConsent(ApiSuccess<String>),
    /// A consent exists: it is recorded on the session.
    MarkConsent(ContinueMarkConsent),
}

impl AuthorizeContinueUseCase {
    pub fn new(consent_page_url: Option<String>) -> (r: Self)
        ensures
            r.consent_page_url@ == match consent_page_url {
                Some(u) => u@,
                None => Seq::<char>::empty(),
            },
    {
        match consent_page_url {
            Some(u) => Self { consent_page_url: u },
            None => Self { consent_page_url: String::new() },
        }
    }

    /// Checks that the query names a session, a user, and a login token or a
    /// consent.
    pub fn validate_query(&self, data: &AuthorizeRequest) -> (r: Result<(), String>)
        ensures
            match query_fault(data) {
                Some(m) => r matches Err(e) && e@ == m,
                None => r is Ok,
            },
    {
        if data.auth_token.is_none() && data.consent_id.is_none() {
            return Err("Missing auth token or consent id".to_owned());
        }
        if data.session_id.is_none() {
            return Err("Missing session id".to_owned());
        }
        if data.user_id.is_none() {
            return Err("Missing user id".to_owned());
        }
        Ok(())
    }

    /// Reads the session identifier of the query; the user identifier is
    /// passed on as it is.
    pub fn get_session_and_user_uuid(&self, session_id: &str, user_id: u128) -> (r: Result<
        (u128, u128),
        (String, StatusCode),
    >)
        ensures
            match uuid_parse(session_id@) {
                Some(id) => r matches Ok(pair) && pair == (id, user_id),
                None => r matches Err(e) && e.0@ == "Invalid session ID"@ && e.1
                    == StatusCode::UNPROCESSABLE_ENTITY,
            },
            forall|id: u128| session_id@ == uuid_text(id) ==> r == Ok::<
                (u128, u128),
                (String, StatusCode),
            >((id, user_id)),
    {
        match parse_id(session_id) {
            Some(id) => Ok((id, user_id)),
            None => Err(("Invalid session ID".to_owned(), StatusCode::UNPROCESSABLE_ENTITY)),
        }
    }

    /// Begins a continuation. A query that lacks something, or whose session
    /// identifier cannot be read, ends it with status 422.
    pub fn handle(self, data: AuthorizeRequest) -> (r: Result<ContinueLoadSession, ApiError>)
        ensures
            match query_fault(&data) {
                Some(m) => r matches Err(e) && e.is(m, StatusCode::UNPROCESSABLE_ENTITY),
                None => match uuid_parse(data.session_id->0@) {
                    None => r matches Err(e) && e.is(
                        "Invalid session ID"@,
                        StatusCode::UNPROCESSABLE_ENTITY,
                    ),
                    Some(id) => r matches Ok(next) && next.session_id == id && Some(next.user_id)
                        == data.user_id && next.consent_id == data.consent_id
                        && next.consent_page_url == self.consent_page_url,
                },
            },
            forall|id: u128|
                query_fault(&data) is None && data.session_id->0@ == uuid_text(id) ==> (
                r matches Ok(next) && next.session_id == id),
    {
        if let Err(e) = self.validate_query(&data) {
            return Err(ApiError::new(e, StatusCode::UNPROCESSABLE_ENTITY));
        }
        let session_id = data.session_id.unwrap();
        let user_id = data.user_id.unwrap();
        match self.get_session_and_user_uuid(session_id.as_str(), user_id) {
            Err(e) => Err(ApiError::new(e.0, e.1)),
            Ok(pair) => Ok(
                ContinueLoadSession {
                    session_id: pair.0,
                    user_id: pair.1,
                    consent_id: data.consent_id,
                    consent_page_url: self.consent_page_url,
                },
            ),
        }
    }
}

impl ContinueLoadSession {
    /// How the step ends for the session that was loaded. A session that has
    /// a user goes on for that user alone: with a consent named, the consent
    /// is checked next, unless the session has another user than the query
    /// names. Without a consent named, the user is bound to the session,
    /// which a session that has a user refuses, whoever is offered.
    pub open spec fn leads_to(
        self,
        session: Option<OauthSession>,
        r: Result<ContinueAfterSession, ApiError>,
    ) -> bool {
        match session {
            None => r matches Err(e) && e.is("Session not found"@, StatusCode::BAD_REQUEST),
            Some(s) => match self.consent_id {
                Some(id) => if s.user_id is Some && s.user_id != Some(self.user_id) {
                    r matches Err(e) && e.is(
                        "User already set for this session"@,
                        StatusCode::UNPROCESSABLE_ENTITY,
                    )
                } else {
                    r matches Ok(ContinueAfterSession::CheckConsent(next)) && next.consent_id
                        == id && next.user_id == self.user_id && next.session == s
                },
                None => if s.user_id is Some {
                    r matches Err(e) && e.is(
                        "User already set for this session"@,
                        StatusCode::UNPROCESSABLE_ENTITY,
                    )
                } else {
                    r matches Ok(ContinueAfterSession::BindUser(next)) && next.session == (
                    OauthSession { user_id: Some(self.user_id), ..s }) && next.field
                        == SessionField::UserId && next.user_id == self.user_id
                        && next.consent_page_url == self.consent_page_url
                },
            },
        }
    }

    /// Takes the loaded session and decides as `leads_to` says.
    pub fn on_session(self, session: Option<OauthSession>) -> (r: Result<
        ContinueAfterSession,
        ApiError,
    >)
        ensures
            self.leads_to(session, r),
    {
        let Some(session) = session else {
            return Err(ApiError::of("Session not found", StatusCode::BAD_REQUEST));
        };
        match self.consent_id {
            Some(consent_id) => {
                let another = match session.user_id {
                    Some(bound) => bound != self.user_id,
                    None => false,
                };
                if another {
                    return Err(
                        ApiError::of(
                            "User already set for this session",
                            StatusCode::UNPROCESSABLE_ENTITY,
                        ),
                    );
                }
                Ok(
                    ContinueAfterSession::CheckConsent(
                        ContinueLoadConsent { consent_id, user_id: self.user_id, session },
                    ),
                )
            },
            None => {
                let session = session.bind_user(self.user_id)?;
                Ok(
                    ContinueAfterSession::BindUser(
                        ContinueBindUser {
                            session,
                            field: SessionField::UserId,
                            user_id: self.user_id,
                            consent_page_url: self.consent_page_url,
                        },
                    ),
                )
            },
        }
    }
}

impl ContinueLoadConsent {
    /// Whether `consent` was given by the session's user to the session's
    /// client.
    pub open spec fn covers(self, consent: OauthConsent) -> bool {
        self.session.user_id == Some(consent.user_id) && consent.client_id@
            == self.session.client_id@
    }

    /// How the step ends for the consent that was loaded and the identifier
    /// to mint the code from. A consent that is unknown, or is another
    /// user's or another client's, ends the continuation with status 422.
    /// Otherwise the code is minted for the user of the session, and for no
    /// other.
    pub open spec fn mints(
        self,
        consent: Option<OauthConsent>,
        code: u128,
        r: Result<ContinueStoreCode, ApiError>,
    ) -> bool {
        match consent {
            Some(c) if self.covers(c) => r matches Ok(next) && next.code@ == uuid_text(code)
                && Some(next.data.user_id) == self.session.user_id && next.data.session_id
                == self.session.id && next.ttl == CODE_TTL_SECONDS && next.redirect_uri
                == self.session.redirect_uri && next.state == self.session.state,
            _ => r matches Err(e) && e.is("Invalid consent ID"@, StatusCode::UNPROCESSABLE_ENTITY),
        }
    }

    /// Takes the loaded consent and the identifier to mint the code from, and
    /// decides as `mints` says.
    pub fn on_consent_with(self, consent: Option<OauthConsent>, code: u128) -> (r: Result<
        ContinueStoreCode,
        ApiError,
    >)
        ensures
            self.mints(consent, code, r),
    {
        let Some(consent) = consent else {
            return Err(ApiError::of("Invalid consent ID", StatusCode::UNPROCESSABLE_ENTITY));
        };
        let same_user = match self.session.user_id {
            Some(u) => u == consent.user_id,
            None => false,
        };
        if !same_user || !same_text(consent.client_id.as_str(), self.session.client_id.as_str()) {
            return Err(ApiError::of("Invalid consent ID", StatusCode::UNPROCESSABLE_ENTITY));
        }
        Ok(mint_code(self.session, consent.user_id, code))
    }

    /// As `on_consent_with`, minting the code from a fresh random identifier.
    pub fn on_consent(self, consent: Option<OauthConsent>) -> (r: Result<
        ContinueStoreCode,
        ApiError,
    >)
        ensures
            exists|code: u128| self.mints(consent, code, r),
    {
        let code = new_id();
        self.on_consent_with(consent, code)
    }
}

/// The code entry for a session: the envelope of user and session, kept under
/// the code's text.
pub fn mint_code(session: OauthSession, user_id: u128, code: u128) -> (r: ContinueStoreCode)
    ensures
        r.code@ == uuid_text(code),
        r.data.user_id == user_id,
        r.data.session_id == session.id,
        r.ttl == CODE_TTL_SECONDS,
        r.redirect_uri == session.redirect_uri,
        r.state == session.state,
{
    ContinueStoreCode {
        code: id_text(code),
        data: TokenData { user_id, session_id: session.id },
        ttl: CODE_TTL_SECONDS,
        redirect_uri: session.redirect_uri,
        state: session.state,
    }
}

impl ContinueBindUser {
    /// Takes the answer of the session store to the write of the user. A
    /// failed write ends the continuation with status 500 and the store's
    /// message.
    pub fn on_saved(self, saved: Result<(), String>) -> (r: Result<ContinueFindConsent, ApiError>)
        ensures
            match saved {
                Ok(_) => r matches Ok(next) && next.session == self.session && next.user_id
                    == self.user_id && next.consent_page_url == self.consent_page_url,
                Err(m) => r matches Err(e) && e.error == m && e.status_code
                    == StatusCode::INTERNAL_SERVER_ERROR.code(),
            },
    {
        match saved {
            Ok(_) => Ok(
                ContinueFindConsent {
                    session: self.session,
                    user_id: self.user_id,
                    consent_page_url: self.consent_page_url,
                },
            ),
            Err(m) => Err(ApiError::new(m, StatusCode::INTERNAL_SERVER_ERROR)),
        }
    }
}

impl ContinueFindConsent {
    /// Reads the answer of the consent store: a consent, its absence (the
    /// store's "not found" message), or a failure.
    pub fn check_is_consent_is_granted(&self, found: Result<OauthConsent, String>) -> (r: Result<
        bool,
        ApiError,
    >)
        ensures
            match found {
                Ok(_) => r matches Ok(b) && b,
                Err(m) => if m@ == consent_absent_text() {
                    r matches Ok(b) && !b
                } else {
                    r matches Err(e) && e.error == m && e.status_code
                        == StatusCode::INTERNAL_SERVER_ERROR.code()
                },
            },
    {
        match found {
            Ok(_) => Ok(true),
            Err(m) => {
                if same_text(m.as_str(), "Consent not found") {
                    Ok(false)
                } else {
                    Err(ApiError::new(m, StatusCode::INTERNAL_SERVER_ERROR))
                }
            },
        }
    }

    /// Takes the answer of the consent lookup and the time. Where the user
    /// never consented, the operation ends with a redirect to the consent
    /// page; where a consent exists, it is recorded on the session as of
    /// `now`; where the lookup failed, the operation ends with status 500.
    pub fn on_lookup_at(self, found: Result<OauthConsent, String>, now: i64) -> (r: Result<
        ContinueAfterLookup,
        ApiError,
    >)
        ensures
            match found {
                Ok(_) => r matches Ok(ContinueAfterLookup::MarkConsent(next)) && next.session == (
                OauthSession { consent_granted_at: Some(now), ..self.session }) && next.field
                    == SessionField::ConsentGrantedAt && next.user_id == self.user_id,
                Err(m) => if m@ == consent_absent_text() {
                    r matches Ok(ContinueAfterLookup::NeedsConsent(s)) && s.data
                        == self.consent_page_url && s.status_code == StatusCode::SEE_OTHER.code()
                } else {
                    r matches Err(e) && e.is(
                        "Failed to check consent"@,
                        StatusCode::INTERNAL_SERVER_ERROR,
                    )
                },
            },
    {
        match self.check_is_consent_is_granted(found) {
            Ok(true) => Ok(
                ContinueAfterLookup::MarkConsent(
                    ContinueMarkConsent {
                        session: self.session.grant_consent(now),
                        field: SessionField::ConsentGrantedAt,
                        user_id: self.user_id,
                    },
                ),
            ),
            Ok(false) => Ok(
                ContinueAfterLookup::NeedsConsent(
                    ApiSuccess::new(self.consent_page_url, StatusCode::SEE_OTHER),
                ),
            ),
            Err(_) => Err(
                ApiError::of("Failed to check consent", StatusCode::INTERNAL_SERVER_ERROR),
            ),
        }
    }

    /// As `on_lookup_at`, at the time the clock shows.
    pub fn on_lookup(self, found: Result<OauthConsent, String>) -> (r: Result<
        ContinueAfterLookup,
        ApiError,
    >)
        ensures
            match found {
                Ok(_) => r matches Ok(ContinueAfterLookup::MarkConsent(next))
                    && next.session.consent_granted_at is Some && (OauthSession {
                    consent_granted_at: None,
                    ..next.session
                }) == (OauthSession { consent_granted_at: None, ..self.session }) && next.field
                    == SessionField::ConsentGrantedAt && next.user_id == self.user_id,
                Err(m) => if m@ == consent_absent_text() {
                    r matches Ok(ContinueAfterLookup::NeedsConsent(s)) && s.data
                        == self.consent_page_url && s.status_code == StatusCode::SEE_OTHER.code()
                } else {
                    r matches Err(e) && e.is(
                        "Failed to check consent"@,
                        StatusCode::INTERNAL_SERVER_ERROR,
                    )
                },
            },
    {
        let now = current_time();
        self.on_lookup_at(found, now)
    }
}

impl ContinueMarkConsent {
    /// How the step ends for the answer of the session store to the write of
    /// the consent time, and the identifier to mint the code from. A failed
    /// write ends the continuation with status 500 and the store's message.
    /// The code is minted for the user of the session, and only where that
    /// is the user of this continuation.
    pub open spec fn mints(
        self,
        saved: Result<(), String>,
        code: u128,
        r: Result<ContinueStoreCode, ApiError>,
    ) -> bool {
        match saved {
            Err(m) => r matches Err(e) && e.error == m && e.status_code
                == StatusCode::INTERNAL_SERVER_ERROR.code(),
            Ok(_) => match self.session.user_id {
                None => r matches Err(e) && e.is(
                    "Session is not authenticated"@,
                    StatusCode::BAD_REQUEST,
                ),
                Some(bound) => if bound == self.user_id {
                    r matches Ok(next) && next.code@ == uuid_text(code) && next.data.user_id
                        == bound && next.data.session_id == self.session.id && next.ttl
                        == CODE_TTL_SECONDS && next.redirect_uri == self.session.redirect_uri
                        && next.state == self.session.state
                } else {
                    r matches Err(e) && e.is(
                        "User already set for this session"@,
                        StatusCode::UNPROCESSABLE_ENTITY,
                    )
                },
            },
        }
    }

    /// Takes the answer of the session store and the identifier to mint the
    /// code from, and decides as `mints` says.
    pub fn on_saved_with(self, saved: Result<(), String>, code: u128) -> (r: Result<
        ContinueStoreCode,
        ApiError,
    >)
        ensures
            self.mints(saved, code, r),
    {
        if let Err(m) = saved {
            return Err(ApiError::new(m, StatusCode::INTERNAL_SERVER_ERROR));
        }
        let Some(bound) = self.session.user_id else {
            return Err(ApiError::of("Session is not authenticated", StatusCode::BAD_REQUEST));
        };
        if bound != self.user_id {
            return Err(
                ApiError::of(
                    "User already set for this session",
                    StatusCode::UNPROCESSABLE_ENTITY,
                ),
            );
        }
        Ok(mint_code(self.session, bound, code))
    }

    /// As `on_saved_with`, minting the code from a fresh random identifier.
    pub fn on_saved(self, saved: Result<(), String>) -> (r: Result<ContinueStoreCode, ApiError>)
        ensures
            exists|code: u128| self.mints(saved, code, r),
    {
        let code = new_id();
        self.on_saved_with(saved, code)
    }
}

impl ContinueStoreCode {
    /// Ends the continuation once the vault has answered: a redirect to the
    /// client with the code and its `state`, or status 500 where the code
    /// could not be stored.
    pub fn finish(self, stored: Result<(), VaultFault>) -> (r: Result<ApiSuccess<String>, ApiError>)
        ensures
            match stored {
                Ok(_) => r matches Ok(s) && s.status_code == StatusCode::SEE_OTHER.code()
                    && s.data@ == code_redirect(self.redirect_uri@, self.code@, self.state@),
                Err(VaultFault::Unavailable) => r matches Err(e) && e.is(
                    no_connection_text(),
                    StatusCode::INTERNAL_SERVER_ERROR,
                ),
                Err(_) => r matches Err(e) && e.is(
                    "Failed to store authorization code"@,
                    StatusCode::INTERNAL_SERVER_ERROR,
                ),
            },
    {
        match stored {
            Ok(_) => {
                let url = self.redirect_uri.concat("?code=").concat(self.code.as_str()).concat(
                    "&state=",
                ).concat(self.state.as_str());
                Ok(ApiSuccess::new(url, StatusCode::SEE_OTHER))
            },
            Err(VaultFault::Unavailable) => Err(
                ApiError::of(
                    "Failed to get connection from pool",
                    StatusCode::INTERNAL_SERVER_ERROR,
                ),
            ),
            Err(_) => Err(
                ApiError::of(
                    "Failed to store authorization code",
                    StatusCode::INTERNAL_SERVER_ERROR,
                ),
            ),
        }
    }
}

} // verus!
