//! Authorize: a pushed request is redeemed, once, for a new session, and the
//! caller is sent to the login page.
use vstd::prelude::*;
use crate::api_response::{ApiError, ApiSuccess, StatusCode};
use crate::domain::NewSession;
use crate::dto::{AuthorizeRequest, ParRequest};
use crate::ident::{id_text, uuid_text};
use crate::text::{has_prefix, same_text, split_on_space, split_pieces, texts};
use crate::use_cases::par::par_uri_prefix;
use crate::vault::{no_connection_text, VaultFault};
use vstd::string::StringExecFns;

verus! {

/// Where the login page is when none is configured.
pub open spec fn default_login_page_url() -> Seq<char> {
    "http://localhost:3001/"@
}

pub struct AuthorizeUseCase {
    pub login_page_url: String,
}

/// An authorization that waits for the entry under `uri` to be taken from the
/// vault: fetched and deleted in one step.
pub struct AuthorizeTake {
    pub uri: String,
    pub client_id: Option<String>,
    pub login_page_url: String,
}

/// An authorization that waits for `session` to be created.
pub struct AuthorizeInsert {
    pub session: NewSession,
    pub login_page_url: String,
}

/// The session that a pushed request opens for the client that redeems it.
pub open spec fn opens(session: NewSession, client_id: String, request: ParRequest) -> bool {
    &&& session.client_id == client_id
    &&& session.response_type == request.response_type
    &&& texts(session.scopes@) == split_pieces(request.scope@, ' ')
    &&& session.redirect_uri == request.redirect_uri
    &&& session.state == request.state
    &&& session.code_challenge == request.code_challenge
    &&& session.code_challenge_method == request.code_challenge_method
}

/// Whether a query of the authorize endpoint continues an authorization
/// after login (it names a session) rather than starting one.
pub fn is_continuation(data: &AuthorizeRequest) -> (r: bool)
    ensures
        r == data.session_id is Some,
{
    data.session_id.is_some()
}

impl AuthorizeUseCase {
    pub fn new(login_page_url: Option<String>) -> (r: Self)
        ensures
            r.login_page_url@ == match login_page_url {
                Some(u) => u@,
                None => default_login_page_url(),
            },
    {
        match login_page_url {
            Some(u) => Self { login_page_url: u },
            None => Self { login_page_url: "http://localhost:3001/".to_owned() },
        }
    }

    /// Begins an authorization. A `uri` that is missing or lacks the prefix
    /// of pushed requests ends it with status 400.
    pub fn handle(self, data: AuthorizeRequest) -> (r: Result<AuthorizeTake, ApiError>)
        ensures
            match data.uri {
                Some(uri) if par_uri_prefix().is_prefix_of(uri@) => r matches Ok(next) && next.uri
                    == uri && next.client_id == data.client_id && next.login_page_url
                    == self.login_page_url,
                _ => r matches Err(e) && e.is("Invalid URI"@, StatusCode::BAD_REQUEST),
            },
    {
        let Some(uri) = data.uri else {
            return Err(ApiError::of("Invalid URI", StatusCode::BAD_REQUEST));
        };
        if !has_prefix(uri.as_str(), "urn:ietf:params:oauth:request_uri:") {
            return Err(ApiError::of("Invalid URI", StatusCode::BAD_REQUEST));
        }
        Ok(AuthorizeTake { uri, client_id: data.client_id, login_page_url: self.login_page_url })
    }
}

impl AuthorizeTake {
    /// Whether the caller is the client that pushed `request`.
    pub open spec fn pushed_by_caller(self, request: ParRequest) -> bool {
        self.client_id matches Some(c) && c@ == request.client_id@
    }

    /// How the step ends for each answer of the vault: an entry that is
    /// absent, expired or already redeemed ends the authorization as not
    /// found; one pushed by another client ends it too; otherwise the session
    /// to create is the one the pushed request opens.
    pub open spec fn resolves_to(
        self,
        taken: Result<Option<ParRequest>, VaultFault>,
        r: Result<AuthorizeInsert, ApiError>,
    ) -> bool {
        match taken {
            Err(VaultFault::Unavailable) => r matches Err(e) && e.is(
                no_connection_text(),
                StatusCode::INTERNAL_SERVER_ERROR,
            ),
            Err(_) | Ok(None) => r matches Err(e) && e.is(
                "URI not found"@,
                StatusCode::BAD_REQUEST,
            ),
            Ok(Some(request)) => if self.pushed_by_caller(request) {
                r matches Ok(next) && opens(next.session, self.client_id->0, request)
                    && next.login_page_url == self.login_page_url
            } else {
                r matches Err(e) && e.is("Invalid client id"@, StatusCode::BAD_REQUEST)
            },
        }
    }

    /// Takes what the vault answered and decides as `resolves_to` says.
    pub fn resolve(self, taken: Result<Option<ParRequest>, VaultFault>) -> (r: Result<
        AuthorizeInsert,
        ApiError,
    >)
        ensures
            self.resolves_to(taken, r),
    {
        let request = match taken {
            Err(VaultFault::Unavailable) => {
                return Err(
                    ApiError::of(
                        "Failed to get connection from pool",
                        StatusCode::INTERNAL_SERVER_ERROR,
                    ),
                );
            },
            Err(_) | Ok(None) => {
                return Err(ApiError::of("URI not found", StatusCode::BAD_REQUEST));
            },
            Ok(Some(request)) => request,
        };
        let Some(client_id) = self.client_id else {
            return Err(ApiError::of("Invalid client id", StatusCode::BAD_REQUEST));
        };
        if !same_text(request.client_id.as_str(), client_id.as_str()) {
            return Err(ApiError::of("Invalid client id", StatusCode::BAD_REQUEST));
        }
        let scopes = split_on_space(request.scope.as_str());
        Ok(
            AuthorizeInsert {
                session: NewSession {
                    client_id,
                    response_type: request.response_type,
                    scopes,
                    redirect_uri: request.redirect_uri,
                    state: request.state,
                    code_challenge: request.code_challenge,
                    code_challenge_method: request.code_challenge_method,
                },
                login_page_url: self.login_page_url,
            },
        )
    }
}

impl AuthorizeInsert {
    /// Ends the authorization once the session store has answered with the
    /// new session's identifier, or with none where the write failed.
    pub fn finish(self, inserted: Option<u128>) -> (r: Result<ApiSuccess<String>, ApiError>)
        ensures
            match inserted {
                Some(id) => r matches Ok(s) && s.status_code == StatusCode::SEE_OTHER.code()
                    && s.data@ == self.login_page_url@ + "?session_id="@ + uuid_text(id),
                None => r matches Err(e) && e.is(
                    "Failed to create OAuth session"@,
                    StatusCode::INTERNAL_SERVER_ERROR,
                ),
            },
    {
        let Some(id) = inserted else {
            return Err(
                ApiError::of("Failed to create OAuth session", StatusCode::INTERNAL_SERVER_ERROR),
            );
        };
        let url = self.login_page_url.concat("?session_id=").concat(id_text(id).as_str());
        Ok(ApiSuccess::new(url, StatusCode::SEE_OTHER))
    }
}

} // verus!
