//! The identity provider gateway, as far as it is decided here: where each
//! request goes, and what becomes of what the transport brings back.
use vstd::prelude::*;
use crate::api_response::{ApiError, StatusCode};
use crate::domain::{IdPIdTokenResponse, IdpUser, IdpVerifyCredentialResponse};
use crate::ident::{id_text, uuid_text};
use vstd::string::StringExecFns;

verus! {

/// How an exchange with the identity provider failed, with the transport's
/// own words.
#[derive(Clone, Debug)]
pub enum GatewayFault {
    /// The request could not be sent.
    Send(String),
    /// An answer came that could not be read.
    Parse(String),
}

/// The error a failed exchange is reported as: status 500, and the
/// transport's words after a fixed opening.
pub open spec fn reports(fault: GatewayFault, e: ApiError) -> bool {
    &&& e.status_code == StatusCode::INTERNAL_SERVER_ERROR.code()
    &&& e.error@ == match fault {
        GatewayFault::Send(words) => "Failed to send request to IDP: "@ + words@,
        GatewayFault::Parse(words) => "Failed to parse response from IDP: "@ + words@,
    }
}

pub struct IdpGateway {
    pub base_url: String,
}

/// Reports a failed exchange.
pub fn fault_error(fault: GatewayFault) -> (e: ApiError)
    ensures
        reports(fault, e),
{
    match fault {
        GatewayFault::Send(words) => ApiError::new(
            "Failed to send request to IDP: ".to_owned().concat(words.as_str()),
            StatusCode::INTERNAL_SERVER_ERROR,
        ),
        GatewayFault::Parse(words) => ApiError::new(
            "Failed to parse response from IDP: ".to_owned().concat(words.as_str()),
            StatusCode::INTERNAL_SERVER_ERROR,
        ),
    }
}

impl IdpGateway {
    pub fn new(base_url: String) -> (r: Self)
        ensures
            r.base_url == base_url,
    {
        Self { base_url }
    }

    /// Where ID tokens are minted.
    pub fn id_token_url(&self) -> (r: String)
        ensures
            r@ == self.base_url@ + "/api/v1/credentials/id_token"@,
    {
        self.base_url.clone().concat("/api/v1/credentials/id_token")
    }

    /// Where login tokens are verified.
    pub fn verify_credential_url(&self) -> (r: String)
        ensures
            r@ == self.base_url@ + "/api/v1/user/verify-credential"@,
    {
        self.base_url.clone().concat("/api/v1/user/verify-credential")
    }

    /// Where the user `id` is described.
    pub fn user_url(&self, id: u128) -> (r: String)
        ensures
            r@ == self.base_url@ + "/api/v1/user/"@ + uuid_text(id),
    {
        self.base_url.clone().concat("/api/v1/user/").concat(id_text(id).as_str())
    }

    /// What the exchange for an ID token yields: the token, or the report of
    /// the failure.
    pub fn get_id_token_v1(&self, outcome: Result<IdPIdTokenResponse, GatewayFault>) -> (r: Result<
        String,
        ApiError,
    >)
        ensures
            match outcome {
                Ok(body) => r matches Ok(t) && t == body.id_token,
                Err(fault) => r matches Err(e) && reports(fault, e),
            },
    {
        match outcome {
            Ok(body) => Ok(body.id_token),
            Err(fault) => Err(fault_error(fault)),
        }
    }

    /// What the exchange to verify a login token yields.
    pub fn verify_auth_token_v1(
        &self,
        outcome: Result<IdpVerifyCredentialResponse, GatewayFault>,
    ) -> (r: Result<bool, ApiError>)
        ensures
            match outcome {
                Ok(body) => r matches Ok(v) && v == body.verified,
                Err(fault) => r matches Err(e) && reports(fault, e),
            },
    {
        match outcome {
            Ok(body) => Ok(body.verified),
            Err(fault) => Err(fault_error(fault)),
        }
    }

    /// What the exchange for a user's description yields.
    pub fn get_user_by_id_v1(&self, outcome: Result<IdpUser, GatewayFault>) -> (r: Result<
        IdpUser,
        ApiError,
    >)
        ensures
            match outcome {
                Ok(user) => r matches Ok(u) && u == user,
                Err(fault) => r matches Err(e) && reports(fault, e),
            },
    {
        match outcome {
            Ok(user) => Ok(user),
            Err(fault) => Err(fault_error(fault)),
        }
    }
}

} // verus!
