//! What holds of the protocol across its steps, proved from the contracts of
//! the steps and of the stores.
use vstd::prelude::*;
use crate::api_response::{ApiError, StatusCode};
use crate::domain::{OauthClient, OauthConsent, OauthSession, OauthToken};
use crate::dto::ParRequest;
use crate::stores::{can_rotate, has_refresh_digest, rotated, tokens_distinct};
use crate::text::{lemma_first_absent, texts};
use crate::use_cases::authorize::{AuthorizeInsert, AuthorizeTake};
use crate::use_cases::authorize_continue::{
    ContinueAfterSession, ContinueLoadConsent, ContinueLoadSession, ContinueMarkConsent,
    ContinueStoreCode,
};
use crate::use_cases::consent_confirm::{
    missing_text, not_allowed_text, scopes_fault, ConfirmLoadClient,
};
use crate::use_cases::par::{state_fault, MIN_STATE_ENTROPY_BITS};
use crate::token::pkce_challenge;
use crate::use_cases::token_authorization_code::{TokenLoadClient, TokenLoadSession};
use crate::use_cases::token_refresh::{RefreshFindToken, RefreshLoadSession};
use crate::vault::{live, Kept};

verus! {

/// A push whose other parameters are in order is refused for its `state`
/// exactly when the state carries fewer than 64 bits of entropy, and then
/// with the message that says so.
pub proof fn state_entropy_floor(data: ParRequest, entropy_bits: u64)
    requires
        data.response_type@ == "code"@,
        data.code_challenge_method@ == "S256"@,
        data.state@.len() > 0,
        data.code_challenge@.len() > 0,
    ensures
        entropy_bits >= MIN_STATE_ENTROPY_BITS <==> state_fault(&data, entropy_bits) is None,
        entropy_bits < MIN_STATE_ENTROPY_BITS ==> state_fault(&data, entropy_bits) == Some(
            "Invalid state entropy"@,
        ),
{
}

/// A reference to a pushed request is redeemed exactly once. The first
/// Authorize that presents it succeeds where the entry is still to be had
/// and was pushed by the caller. Once the vault has been asked to take it,
/// whatever came of that, every later Authorize with the same reference ends
/// as not found.
pub proof fn request_uri_is_single_use(
    vault: Map<Seq<char>, Kept<ParRequest>>,
    first: AuthorizeTake,
    now: int,
    r1: Result<AuthorizeInsert, ApiError>,
    again: AuthorizeTake,
    later: int,
    r2: Result<AuthorizeInsert, ApiError>,
)
    requires
        again.uri@ == first.uri@,
        first.resolves_to(Ok(live(vault, first.uri@, now)), r1),
        again.resolves_to(Ok(live(vault.remove(first.uri@), again.uri@, later)), r2),
    ensures
        live(vault, first.uri@, now) matches Some(request) && first.pushed_by_caller(request)
            ==> r1 is Ok,
        r2 matches Err(e) && e.is("URI not found"@, StatusCode::BAD_REQUEST),
{
}

/// A session takes a user once. A continuation that names no consent binds
/// its user to a session that has none. After that, a continuation against
/// the same session is refused as already authorized if it names no consent,
/// whoever it offers, and if it offers another user, whatever it names.
pub proof fn user_is_bound_once(
    session: OauthSession,
    first: ContinueLoadSession,
    r1: Result<ContinueAfterSession, ApiError>,
    again: ContinueLoadSession,
    r2: Result<ContinueAfterSession, ApiError>,
)
    requires
        session.user_id is None,
        first.consent_id is None,
        again.consent_id is None || again.user_id != first.user_id,
        first.leads_to(Some(session), r1),
        again.leads_to(Some(OauthSession { user_id: Some(first.user_id), ..session }), r2),
    ensures
        r1 matches Ok(ContinueAfterSession::BindUser(step)) && step.session.user_id == Some(
            first.user_id,
        ),
        r2 matches Err(e) && e.is(
            "User already set for this session"@,
            StatusCode::UNPROCESSABLE_ENTITY,
        ),
{
}

/// A code is minted only for the user the session is bound to. Both ways to
/// the code lead through a session that has a user: the binding of the user,
/// or a consent of the session's user, and then the envelope kept under the
/// code names that user and no other.
pub proof fn code_is_for_the_bound_user(
    unnamed: ContinueLoadSession,
    session: OauthSession,
    r1: Result<ContinueAfterSession, ApiError>,
    named: ContinueLoadConsent,
    consent: Option<OauthConsent>,
    code: u128,
    r2: Result<ContinueStoreCode, ApiError>,
    marked: ContinueMarkConsent,
    saved: Result<(), String>,
    r3: Result<ContinueStoreCode, ApiError>,
)
    requires
        unnamed.leads_to(Some(session), r1),
        named.mints(consent, code, r2),
        marked.mints(saved, code, r3),
    ensures
        r3 matches Ok(store) ==> marked.session.user_id == Some(store.data.user_id),
        r1 matches Ok(ContinueAfterSession::BindUser(next)) ==> next.session.user_id == Some(
            next.user_id,
        ),
        r1 matches Ok(ContinueAfterSession::CheckConsent(next)) ==> next.session.user_id is None
            || next.session.user_id == Some(next.user_id),
        r2 matches Ok(store) ==> named.session.user_id == Some(store.data.user_id),
{
}

/// The code is bound to its requester: a token request whose verifier does
/// not hash to the challenge of the session is refused with status 400,
/// whatever the verifier.
pub proof fn verifier_must_answer_challenge(
    step: TokenLoadSession,
    session: OauthSession,
    r: Result<TokenLoadClient, ApiError>,
)
    requires
        pkce_challenge(step.data.code_verifier@) != session.code_challenge@,
        step.leads_to(Some(session), r),
    ensures
        r matches Err(e) && e.is("Invalid code challenge"@, StatusCode::BAD_REQUEST),
{
}

/// Rotation retires the old refresh token: once a row has taken a new
/// refresh digest, no row is kept under the old one, and exactly the rotated
/// row is kept under the new one.
pub proof fn rotation_retires_refresh_token(
    rows: Seq<OauthToken>,
    i: int,
    access: String,
    refresh: String,
    now: i64,
)
    requires
        tokens_distinct(rows),
        0 <= i < rows.len(),
        can_rotate(rows, i, access@, refresh@),
        refresh@ != rows[i].refresh_token@,
    ensures
        !has_refresh_digest(rotated(rows, i, access, refresh, now), rows[i].refresh_token@),
        forall|j: int|
            0 <= j < rows.len() ==> (rotated(rows, i, access, refresh, now)[j].refresh_token@
                == refresh@ <==> j == i),
{
    let after = rotated(rows, i, access, refresh, now);
    assert forall|j: int| 0 <= j < after.len() implies after[j].refresh_token@
        != rows[i].refresh_token@ by {
        if j < i {
            assert(rows[j].refresh_token@ != rows[i].refresh_token@);
        } else if i < j {
            assert(rows[i].refresh_token@ != rows[j].refresh_token@);
        }
    }
}

/// A refresh token that was rotated away is refused: the store holds no row
/// under its digest, whatever the store is asked, and the grant ends with
/// status 400.
pub proof fn retired_refresh_token_is_refused(
    rows: Seq<OauthToken>,
    i: int,
    access: String,
    refresh: String,
    now: i64,
    again: RefreshFindToken,
    found: Option<OauthToken>,
    r: Result<RefreshLoadSession, ApiError>,
)
    requires
        tokens_distinct(rows),
        0 <= i < rows.len(),
        can_rotate(rows, i, access@, refresh@),
        refresh@ != rows[i].refresh_token@,
        again.digest@ == rows[i].refresh_token@,
        found is Some ==> has_refresh_digest(
            rotated(rows, i, access, refresh, now),
            again.digest@,
        ),
        again.answers(found, r),
    ensures
        r matches Err(e) && e.is("Invalid refresh token"@, StatusCode::BAD_REQUEST),
{
    rotation_retires_refresh_token(rows, i, access, refresh, now);
}

/// A choice of scopes passes exactly when every mandatory scope is chosen
/// and every chosen scope is allowed. When it does not pass, the message
/// names a chosen scope that is not allowed or, where all are allowed, a
/// mandatory scope that was not chosen.
pub proof fn consent_scopes_between_mandatory_and_allowed(
    allowed: Seq<Seq<char>>,
    mandatory: Seq<Seq<char>>,
    chosen: Seq<Seq<char>>,
)
    ensures
        scopes_fault(allowed, mandatory, chosen) is None <==> (forall|j: int|
            0 <= j < mandatory.len() ==> chosen.contains(#[trigger] mandatory[j])) && (forall|
            j: int,
        |
            0 <= j < chosen.len() ==> allowed.contains(#[trigger] chosen[j])),
        scopes_fault(allowed, mandatory, chosen) matches Some(m) ==> (exists|j: int|
            0 <= j < chosen.len() && !allowed.contains(chosen[j]) && m == not_allowed_text(
                chosen[j],
            )) || (exists|j: int|
            0 <= j < mandatory.len() && !chosen.contains(mandatory[j]) && m == missing_text(
                mandatory[j],
            )),
{
    lemma_first_absent(chosen, allowed);
    lemma_first_absent(mandatory, chosen);
}

/// Consent-Confirm goes on to record the consent exactly when the mandatory
/// scopes of the client lie within the chosen ones, the chosen ones within
/// the allowed ones, and the session has a user.
pub proof fn consent_is_recorded_within_policy(step: ConfirmLoadClient, client: OauthClient)
    ensures
        step.fault(Some(client)) is None <==> {
            &&& forall|j: int|
                0 <= j < client.mandatory_scopes@.len() ==> texts(step.data.scopes@).contains(
                    #[trigger] texts(client.mandatory_scopes@)[j],
                )
            &&& forall|j: int|
                0 <= j < step.data.scopes@.len() ==> texts(client.scopes@).contains(
                    #[trigger] texts(step.data.scopes@)[j],
                )
            &&& step.session.user_id is Some
        },
{
    consent_scopes_between_mandatory_and_allowed(
        texts(client.scopes@),
        texts(client.mandatory_scopes@),
        texts(step.data.scopes@),
    );
}

} // verus!
