//! Push: a client registers its authorization parameters and receives a
//! short-lived reference to them.
use vstd::prelude::*;
use crate::api_response::{ApiError, ApiSuccess, StatusCode};
use crate::domain::OauthClient;
use crate::dto::{ParRequest, ParResponse};
use crate::ident::{id_text, new_id, uuid_text};
use crate::text::{contains_text, find_absent, first_absent, split_on_space, split_pieces, texts};
use crate::vault::VaultFault;
use vstd::string::StringExecFns;

verus! {

/// What every reference to a pushed request begins with.
pub open spec fn par_uri_prefix() -> Seq<char> {
    "urn:ietf:params:oauth:request_uri:"@
}

/// Seconds a pushed request stays redeemable.
pub const PAR_TTL_SECONDS: u64 = 60;

/// The least number of bits of entropy a `state` value must carry.
pub const MIN_STATE_ENTROPY_BITS: u64 = 64;

/// The first rule of the request itself that `data` breaks, by its message.
/// `entropy_bits` is the Shannon entropy of `state` times its length, rounded
/// down to whole bits.
pub open spec fn state_fault(data: &ParRequest, entropy_bits: u64) -> Option<Seq<char>> {
    if data.response_type@ != "code"@ {
        Some("Invalid response type"@)
    } else if data.code_challenge_method@ != "S256"@ {
        Some("Invalid code challenge method"@)
    } else if data.state@.len() == 0 {
        Some("Invalid state"@)
    } else if data.code_challenge@.len() == 0 {
        Some("Invalid code challenge"@)
    } else if entropy_bits < MIN_STATE_ENTROPY_BITS {
        Some("Invalid state entropy"@)
    } else {
        None
    }
}

/// Whether the redirect URI is missing or not registered for the client.
pub open spec fn uris_fault(data: &ParRequest, client: &OauthClient) -> bool {
    data.redirect_uri@.len() == 0 || !texts(client.urls@).contains(data.redirect_uri@)
}

/// Whether the scope string is empty or names a scope the client may not ask.
pub open spec fn scopes_fault(data: &ParRequest, client: &OauthClient) -> bool {
    data.scope@.len() == 0 || first_absent(
        split_pieces(data.scope@, ' '),
        texts(client.scopes@),
    ) is Some
}

/// Why a request that passed its own rules is refused once the client lookup
/// has answered, by its message. An unknown client and a wrong secret give
/// the same answer.
pub open spec fn client_fault(data: &ParRequest, client: Option<OauthClient>) -> Option<Seq<char>> {
    match client {
        None => Some("Getting client: Client not found"@),
        Some(c) => if uris_fault(data, &c) {
            Some("Error validating URIs: Invalid redirect URI"@)
        } else if scopes_fault(data, &c) {
            Some("Error validating scopes: Invalid scopes"@)
        } else {
            None
        },
    }
}

pub struct ParUseCase {}

/// A push that passed its own rules and waits for the client registered under
/// `data.client_id` with secret `data.client_secret`.
pub struct ParClientLookup {
    pub data: ParRequest,
}

/// A push that was admitted and waits for `data` to be stored in the vault
/// under `request_uri` for `expires_in` seconds.
pub struct ParStore {
    pub request_uri: String,
    pub expires_in: u64,
    pub data: ParRequest,
}

impl ParUseCase {
    pub fn new() -> Self {
        Self {  }
    }

    /// Checks the rules of the request itself, in order.
    pub fn validate_state(&self, data: &ParRequest, entropy_bits: u64) -> (r: Result<(), String>)
        ensures
            match state_fault(data, entropy_bits) {
                Some(m) => r matches Err(e) && e@ == m,
                None => r is Ok,
            },
    {
        if data.response_type != "code".to_owned() {
            return Err("Invalid response type".to_owned());
        }
        if data.code_challenge_method != "S256".to_owned() {
            return Err("Invalid code challenge method".to_owned());
        }
        if data.state.as_str().is_empty() {
            return Err("Invalid state".to_owned());
        }
        if data.code_challenge.as_str().is_empty() {
            return Err("Invalid code challenge".to_owned());
        }
        if entropy_bits < MIN_STATE_ENTROPY_BITS {
            return Err("Invalid state entropy".to_owned());
        }
        Ok(())
    }

    /// Checks that the redirect URI is one the client registered.
    pub fn validate_uris(&self, data: &ParRequest, client: &OauthClient) -> (r: Result<(), String>)
        ensures
            uris_fault(data, client) ==> (r matches Err(e) && e@ == "Invalid redirect URI"@),
            !uris_fault(data, client) ==> r is Ok,
    {
        if data.redirect_uri.as_str().is_empty() {
            return Err("Invalid redirect URI".to_owned());
        }
        if !contains_text(&client.urls, data.redirect_uri.as_str()) {
            return Err("Invalid redirect URI".to_owned());
        }
        Ok(())
    }

    /// Checks that every space-delimited scope is one the client may ask.
    pub fn validate_scopes(&self, data: &ParRequest, client: &OauthClient) -> (r: Result<
        (),
        String,
    >)
        ensures
            scopes_fault(data, client) ==> (r matches Err(e) && e@ == "Invalid scopes"@),
            !scopes_fault(data, client) ==> r is Ok,
    {
        if data.scope.as_str().is_empty() {
            return Err("Invalid scopes".to_owned());
        }
        let requested = split_on_space(data.scope.as_str());
        if find_absent(&requested, &client.scopes).is_some() {
            return Err("Invalid scopes".to_owned());
        }
        Ok(())
    }

    /// Begins a push. A request that breaks one of its own rules ends here
    /// with status 400; any other goes on to the client lookup, unchanged.
    pub fn handle(&self, data: ParRequest, entropy_bits: u64) -> (r: Result<
        ParClientLookup,
        ApiError,
    >)
        ensures
            match state_fault(&data, entropy_bits) {
                Some(m) => r matches Err(e) && e.is(m, StatusCode::BAD_REQUEST),
                None => r matches Ok(next) && next.data == data,
            },
    {
        match self.validate_state(&data, entropy_bits) {
            Err(e) => Err(ApiError::new(e, StatusCode::BAD_REQUEST)),
            Ok(()) => Ok(ParClientLookup { data }),
        }
    }
}

impl ParClientLookup {
    /// Takes what the client lookup answered and the identifier to name the
    /// request by. A refused request ends with status 400; an admitted one
    /// is to be stored under the prefix followed by the identifier's text.
    pub fn resolve_with(self, client: Option<OauthClient>, request_id: u128) -> (r: Result<
        ParStore,
        ApiError,
    >)
        ensures
            match client_fault(&self.data, client) {
                Some(m) => r matches Err(e) && e.is(m, StatusCode::BAD_REQUEST),
                None => r matches Ok(s) && s.data == self.data && s.expires_in == PAR_TTL_SECONDS
                    && s.request_uri@ == par_uri_prefix() + uuid_text(request_id),
            },
    {
        let Some(client) = client else {
            return Err(ApiError::of("Getting client: Client not found", StatusCode::BAD_REQUEST));
        };
        let checks = ParUseCase::new();
        if checks.validate_uris(&self.data, &client).is_err() {
            return Err(
                ApiError::of(
                    "Error validating URIs: Invalid redirect URI",
                    StatusCode::BAD_REQUEST,
                ),
            );
        }
        if checks.validate_scopes(&self.data, &client).is_err() {
            return Err(
                ApiError::of("Error validating scopes: Invalid scopes", StatusCode::BAD_REQUEST),
            );
        }
        let suffix = id_text(request_id);
        let request_uri = "urn:ietf:params:oauth:request_uri:".to_owned().concat(suffix.as_str());
        Ok(ParStore { request_uri, expires_in: PAR_TTL_SECONDS, data: self.data })
    }

    /// As `resolve_with`, naming the request by a fresh random identifier.
    pub fn resolve(self, client: Option<OauthClient>) -> (r: Result<ParStore, ApiError>)
        ensures
            match client_fault(&self.data, client) {
                Some(m) => r matches Err(e) && e.is(m, StatusCode::BAD_REQUEST),
                None => r matches Ok(s) && s.data == self.data && s.expires_in == PAR_TTL_SECONDS
                    && exists|id: u128| s.request_uri@ == par_uri_prefix() + uuid_text(id),
            },
    {
        let request_id = new_id();
        self.resolve_with(client, request_id)
    }
}

impl ParStore {
    /// Ends the push once the vault has answered: status 201 and the
    /// reference where the request was stored, status 500 where it was not.
    pub fn finish(self, stored: Result<(), VaultFault>) -> (r: Result<
        ApiSuccess<ParResponse>,
        ApiError,
    >)
        ensures
            match stored {
                Ok(_) => r matches Ok(s) && s.status_code == StatusCode::CREATED.code()
                    && s.data.request_uri == self.request_uri && s.data.expires_in
                    == self.expires_in,
                Err(VaultFault::Unavailable) => r matches Err(e) && e.is(
                    "Getting cache connection: Failed to get connection from pool"@,
                    StatusCode::INTERNAL_SERVER_ERROR,
                ),
                Err(_) => r matches Err(e) && e.is(
                    "Failed to store PAR request"@,
                    StatusCode::INTERNAL_SERVER_ERROR,
                ),
            },
    {
        match stored {
            Ok(_) => Ok(
                ApiSuccess::new(
                    ParResponse { request_uri: self.request_uri, expires_in: self.expires_in },
                    StatusCode::CREATED,
                ),
            ),
            Err(VaultFault::Unavailable) => Err(
                ApiError::of(
                    "Getting cache connection: Failed to get connection from pool",
                    StatusCode::INTERNAL_SERVER_ERROR,
                ),
            ),
            Err(_) => Err(
                ApiError::of("Failed to store PAR request", StatusCode::INTERNAL_SERVER_ERROR),
            ),
        }
    }
}

} // verus!
