//! The token codec: PKCE challenges, opaque refresh tokens, and signed
//! access tokens.
use vstd::prelude::*;
use jsonwebtoken::{encode, Algorithm, EncodingKey, Header};
use serde_json::Value;
use crate::dto::{AccessToken, TokenResponse};
use crate::text::texts;
use crate::api_response::{ApiError, StatusCode};
use crate::hasher::{hash_sha256, hash_sha512, sha256, sha256_digest, sha256_hex};
use crate::ident::{id_text, new_id, uuid_text};

verus! {

/// The URL-safe, unpadded base64 text of a byte string.
pub uninterp spec fn base64url_text(bytes: Seq<u8>) -> Seq<char>;

/// The RS256 token that `jsonwebtoken` makes of the ten claims, in this
/// order, with the RSA private key that the PEM bytes hold; `None` where it
/// makes none (the PEM is no such key, or signing fails).
pub uninterp spec fn rs256_token(
    scopes: Seq<Seq<char>>,
    sub: Seq<char>,
    exp: u64,
    iat: u64,
    iss: Seq<char>,
    aud: Seq<char>,
    jti: Seq<char>,
    sid: Seq<char>,
    client_id: Seq<char>,
    auth_time: u64,
    pem: Seq<u8>,
) -> Option<Seq<char>>;

/// How many characters the unpadded base64 text of `n` bytes has: four for
/// every three bytes, and two or three for one or two bytes left over.
pub open spec fn base64url_len(n: nat) -> nat {
    (n / 3) * 4 + if n % 3 == 0 {
        0nat
    } else {
        n % 3 + 1
    }
}

/// Whether `jsonwebtoken` accepts a PEM text as an RSA private key.
pub uninterp spec fn rsa_pem_accepted(pem: Seq<u8>) -> bool;

/// How long an access token lives, in seconds.
pub const ACCESS_TOKEN_LIFETIME: i64 = 14400;

/// How many random bytes make a refresh token.
pub const REFRESH_TOKEN_BYTES: usize = 64;

/// `jsonwebtoken::EncodingKey`: a signing key, carried through unread.
#[verifier::external_type_specification]
#[verifier::external_body]
pub struct ExEncodingKey(jsonwebtoken::EncodingKey);

/// `jsonwebtoken::errors::Error`: why a key or a signature was refused.
#[verifier::external_type_specification]
#[verifier::external_body]
pub struct ExJwtError(jsonwebtoken::errors::Error);

/// The signing key as the server holds it: the PEM text of an RSA private
/// key, line feeds written out.
pub struct SigningKey {
    pub pem: String,
}

impl SigningKey {
    /// The bytes of the PEM text.
    pub open spec fn bytes(self) -> Seq<u8> {
        vstd::utf8::encode_utf8(self.pem@)
    }
}

/// Calls `base64`'s `Engine::encode` on `URL_SAFE_NO_PAD`. Trusted: the
/// result is the named encoding of the input, and as long as the crate's
/// `encoded_len` computes without padding. The crate panics where the
/// encoded length overflows `usize`; inputs that long are left out.
#[verifier::external_body]
pub(crate) fn base64url_nopad(bytes: &Vec<u8>) -> (r: String)
    requires
        bytes@.len() <= 0x3fff_ffff,
    ensures
        r@ == base64url_text(bytes@),
        r@.len() == base64url_len(bytes@.len()),
{
    base64::Engine::encode(&base64::engine::general_purpose::URL_SAFE_NO_PAD, bytes)
}

/// Fills a buffer of `len` bytes through `rand::RngCore::fill_bytes` on the
/// thread's generator (`rand::rng`). Trusted: the length. The bytes are
/// random. `rand` panics where the operating system gives it no randomness.
#[verifier::external_body]
pub(crate) fn random_bytes(len: usize) -> (r: Vec<u8>)
    ensures
        r@.len() == len,
{
    let mut buf = vec![0u8; len];
    rand::RngCore::fill_bytes(&mut rand::rng(), &mut buf);
    buf
}

/// Reads the clock: `chrono::Utc::now`, as seconds since the epoch
/// (`timestamp`). Nothing is promised of the value. `chrono` panics where the
/// system clock stands before the epoch.
#[verifier::external_body]
pub(crate) fn unix_now() -> (r: i64)
{
    chrono::Utc::now().timestamp()
}

/// Calls `jsonwebtoken::EncodingKey::from_rsa_pem`. Trusted: whether the key
/// is accepted depends on the PEM bytes alone.
#[verifier::external_body]
pub(crate) fn rsa_key_from_pem(pem: &[u8]) -> (r: Result<
    jsonwebtoken::EncodingKey,
    jsonwebtoken::errors::Error,
>)
    ensures
        r is Ok == rsa_pem_accepted(pem@),
{
    jsonwebtoken::EncodingKey::from_rsa_pem(pem)
}

/// Parses the PEM (`jsonwebtoken::EncodingKey::from_rsa_pem`), lays the
/// claims out as a JSON object (`serde_json::Value::from_iter`), one member
/// per field in the order of the fields, and calls `jsonwebtoken::encode`
/// with an RS256 header. Trusted: the token is the named function of the
/// claims and the PEM bytes, and there is an error exactly where that
/// function gives no token.
#[verifier::external_body]
pub(crate) fn sign_rs256(c: AccessToken, pem: &[u8]) -> (r: Result<
    String,
    jsonwebtoken::errors::Error,
>)
    ensures
        match rs256_token(
            texts(c.scopes@),
            c.sub@,
            c.exp,
            c.iat,
            c.iss@,
            c.aud@,
            c.jti@,
            c.sid@,
            c.client_id@,
            c.auth_time,
            pem@,
        ) {
            Some(t) => r matches Ok(s) && s@ == t,
            None => r is Err,
        },
{
    let key = EncodingKey::from_rsa_pem(pem)?;
    let claims = Value::from_iter([
        ("scopes", Value::from(c.scopes)),
        ("sub", c.sub.into()),
        ("exp", c.exp.into()),
        ("iat", c.iat.into()),
        ("iss", c.iss.into()),
        ("aud", c.aud.into()),
        ("jti", c.jti.into()),
        ("sid", c.sid.into()),
        ("client_id", c.client_id.into()),
        ("auth_time", c.auth_time.into()),
    ]);
    encode(&Header::new(Algorithm::RS256), &claims, &key)
}

/// The PKCE S256 challenge of a verifier: the unpadded base64url text of the
/// SHA-256 digest of its UTF-8 bytes.
pub open spec fn pkce_challenge(verifier: Seq<char>) -> Seq<char> {
    base64url_text(sha256_digest(vstd::utf8::encode_utf8(verifier)))
}

/// Computes the S256 challenge that `verifier` answers.
pub fn code_challenge(verifier: &str) -> (r: String)
    ensures
        r@ == pkce_challenge(verifier@),
{
    let digest = sha256(verifier.as_bytes());
    base64url_nopad(&digest)
}

/// Whether `verifier` answers the stored `challenge`, character for character.
pub fn verify_pkce(verifier: &str, challenge: &str) -> (r: bool)
    ensures
        r == (pkce_challenge(verifier@) == challenge@),
{
    let computed = code_challenge(verifier);
    crate::text::same_text(computed.as_str(), challenge)
}

/// The refresh token made of the given random bytes.
pub fn refresh_token_from(bytes: &Vec<u8>) -> (r: String)
    requires
        bytes@.len() == REFRESH_TOKEN_BYTES,
    ensures
        r@ == base64url_text(bytes@),
        is_refresh_token(r@),
{
    base64url_nopad(bytes)
}

/// How many characters a refresh token has.
pub const REFRESH_TOKEN_CHARS: usize = 86;

/// Whether `token` is the text of some 64 bytes, and so 86 characters long.
pub open spec fn is_refresh_token(token: Seq<char>) -> bool {
    &&& token.len() == REFRESH_TOKEN_CHARS
    &&& exists|bytes: Seq<u8>|
        bytes.len() == REFRESH_TOKEN_BYTES && token == #[trigger] base64url_text(bytes)
}

/// A fresh opaque refresh token: 64 random bytes in unpadded base64url.
pub fn generate_refresh_token() -> (r: String)
    ensures
        is_refresh_token(r@),
{
    let bytes = random_bytes(REFRESH_TOKEN_BYTES);
    refresh_token_from(&bytes)
}

/// `s` with every backslash followed by `n` replaced by a line feed, scanning
/// from the left without overlap.
pub open spec fn unescape_newlines(s: Seq<char>) -> Seq<char>
    decreases s.len(),
{
    if s.len() == 0 {
        s
    } else if s.len() >= 2 && s[0] == '\\' && s[1] == 'n' {
        seq!['\n'] + unescape_newlines(s.skip(2))
    } else {
        seq![s[0]] + unescape_newlines(s.skip(1))
    }
}

/// Turns the two-character sequences `\n` of a one-line PEM into line feeds.
pub fn expand_newlines(s: &str) -> (r: String)
    ensures
        r@ == unescape_newlines(s@),
{
    let v = crate::text::chars_of(s);
    let mut out = String::new();
    let mut i: usize = 0;
    assert(v@.skip(0) == v@);
    while i < v.len()
        invariant
            i <= v.len(),
            v@ == s@,
            out@ + unescape_newlines(v@.skip(i as int)) == unescape_newlines(v@),
        decreases v.len() - i,
    {
        let ghost rest = v@.skip(i as int);
        if v[i] == '\\' && i + 1 < v.len() && v[i + 1] == 'n' {
            assert(rest.skip(2) == v@.skip(i + 2));
            assert(out@.push('\n') + unescape_newlines(v@.skip(i + 2)) == out@ + (seq!['\n']
                + unescape_newlines(v@.skip(i + 2))));
            out.push('\n');
            i = i + 2;
        } else {
            assert(rest.skip(1) == v@.skip(i + 1));
            assert(out@.push(v@[i as int]) + unescape_newlines(v@.skip(i + 1)) == out@ + (
            seq![v@[i as int]] + unescape_newlines(v@.skip(i + 1))));
            out.push(v[i]);
            i = i + 1;
        }
    }
    assert(out@ + Seq::<char>::empty() == out@);
    out
}

/// Whether a clock reading can be written into claims: not before the epoch,
/// and early enough that the expiry still fits.
pub open spec fn claims_time_ok(now: i64) -> bool {
    0 <= now <= i64::MAX - ACCESS_TOKEN_LIFETIME
}

/// The claims of an access token issued at `now`: it expires four hours
/// later, its audience is empty, and issue and authentication time are `now`.
pub fn access_token_claims(
    scopes: Vec<String>,
    now: i64,
    jwt_iss: String,
    session_id: String,
    user_id: u128,
    client_id: String,
    jti: String,
) -> (c: AccessToken)
    requires
        claims_time_ok(now),
    ensures
        c.scopes == scopes,
        c.sub@ == uuid_text(user_id),
        c.exp == now + ACCESS_TOKEN_LIFETIME,
        c.iat == now,
        c.iss == jwt_iss,
        c.aud@ == Seq::<char>::empty(),
        c.jti == jti,
        c.sid == session_id,
        c.client_id == client_id,
        c.auth_time == now,
{
    AccessToken {
        scopes,
        sub: id_text(user_id),
        exp: (now + ACCESS_TOKEN_LIFETIME) as u64,
        iat: now as u64,
        iss: jwt_iss,
        aud: String::new(),
        jti,
        sid: session_id,
        client_id,
        auth_time: now as u64,
    }
}

/// What a signing attempt becomes: the token, or the one message for every
/// failure.
pub fn signed_or_error(signed: Result<String, jsonwebtoken::errors::Error>) -> (r: Result<
    String,
    String,
>)
    ensures
        signed matches Ok(t) ==> r == Ok::<String, String>(t),
        signed is Err ==> (r matches Err(e) && e@ == "Failed to encode JWT"@),
{
    match signed {
        Ok(token) => Ok(token),
        Err(_) => Err("Failed to encode JWT".to_owned()),
    }
}

/// The token for claims and key, as `sign_claims` returns it.
pub open spec fn signed(claims: AccessToken, key: SigningKey) -> Option<Seq<char>> {
    rs256_token(
        texts(claims.scopes@),
        claims.sub@,
        claims.exp,
        claims.iat,
        claims.iss@,
        claims.aud@,
        claims.jti@,
        claims.sid@,
        claims.client_id@,
        claims.auth_time,
        key.bytes(),
    )
}

/// The access token for a session at `now`, with the token identifier `jti`:
/// the RS256 token of the claims that `access_token_claims` writes.
pub open spec fn access_token_for(
    scopes: Seq<Seq<char>>,
    now: i64,
    jwt_iss: Seq<char>,
    session_id: Seq<char>,
    user_id: u128,
    client_id: Seq<char>,
    jti: Seq<char>,
    pem: Seq<u8>,
) -> Option<Seq<char>> {
    rs256_token(
        scopes,
        uuid_text(user_id),
        (now + ACCESS_TOKEN_LIFETIME) as u64,
        now as u64,
        jwt_iss,
        Seq::<char>::empty(),
        jti,
        session_id,
        client_id,
        now as u64,
        pem,
    )
}

/// What a call that was to return the token `expected` returned: the token,
/// or the one message where there is none.
pub open spec fn token_or_error(expected: Option<Seq<char>>, r: Result<String, String>) -> bool {
    match expected {
        Some(t) => r matches Ok(s) && s@ == t,
        None => r matches Err(e) && e@ == "Failed to encode JWT"@,
    }
}

/// How long a token identifier is: the hex text of a SHA-512 digest.
pub const JTI_CHARS: usize = 128;

/// Signs the claims with RS256: the result is the token of these claims and
/// this key, or the one message where there is none.
pub fn sign_claims(claims: AccessToken, key: &SigningKey) -> (r: Result<String, String>)
    ensures
        token_or_error(signed(claims, *key), r),
{
    signed_or_error(sign_rs256(claims, key.pem.as_str().as_bytes()))
}

/// Issues a signed access token for a session, with the token identifier
/// `jti`. Fails, with the one message, where the claims cannot be written
/// for `now` or there is no token for them.
pub fn generate_access_token_with(
    scopes: Vec<String>,
    now: i64,
    jwt_iss: String,
    session_id: String,
    user_id: u128,
    client_id: String,
    jti: String,
    key: &SigningKey,
) -> (r: Result<String, String>)
    ensures
        !claims_time_ok(now) ==> (r matches Err(e) && e@ == "Failed to encode JWT"@),
        claims_time_ok(now) ==> token_or_error(
            access_token_for(
                texts(scopes@),
                now,
                jwt_iss@,
                session_id@,
                user_id,
                client_id@,
                jti@,
                key.bytes(),
            ),
            r,
        ),
{
    if now < 0 || now > i64::MAX - ACCESS_TOKEN_LIFETIME {
        return Err("Failed to encode JWT".to_owned());
    }
    let claims = access_token_claims(scopes, now, jwt_iss, session_id, user_id, client_id, jti);
    sign_claims(claims, key)
}

/// Issues a signed access token for a session. The token identifier is the
/// SHA-512 hex of a fresh random UUID. Fails, with the one message, where the
/// claims cannot be written for `now` or there is no token for them.
pub fn generate_access_token(
    scopes: Vec<String>,
    now: i64,
    jwt_iss: String,
    session_id: String,
    user_id: u128,
    client_id: String,
    key: &SigningKey,
) -> (r: Result<String, String>)
    ensures
        !claims_time_ok(now) ==> (r matches Err(e) && e@ == "Failed to encode JWT"@),
        claims_time_ok(now) ==> exists|jti: Seq<char>|
            jti.len() == JTI_CHARS && token_or_error(
                #[trigger] access_token_for(
                    texts(scopes@),
                    now,
                    jwt_iss@,
                    session_id@,
                    user_id,
                    client_id@,
                    jti,
                    key.bytes(),
                ),
                r,
            ),
{
    let seed = id_text(new_id());
    let jti = hash_sha512(seed.as_str());
    generate_access_token_with(scopes, now, jwt_iss, session_id, user_id, client_id, jti, key)
}

/// Which configuration fault, if any, keeps tokens from being signed.
pub open spec fn envs_fault(jwt_issuer: Option<String>, jwt_private_key: Option<String>) -> Option<
    Seq<char>,
> {
    if jwt_issuer is None {
        Some("JWT_ISSUER not found"@)
    } else if jwt_private_key is None {
        Some("JWT_PRIVATE_KEY not found"@)
    } else if !rsa_pem_accepted(
        vstd::utf8::encode_utf8(unescape_newlines(jwt_private_key->0@)),
    ) {
        Some("Failed to parse JWT_PRIVATE_KEY"@)
    } else {
        None
    }
}

/// Checks the signing configuration: the issuer and the RSA private key, the
/// key given as PEM with `\n` standing for line feeds.
pub fn validate_envs(jwt_issuer: Option<String>, jwt_private_key: Option<String>) -> (r: Result<
    (String, SigningKey),
    ApiError,
>)
    ensures
        match envs_fault(jwt_issuer, jwt_private_key) {
            Some(m) => r matches Err(e) && e.is(m, StatusCode::INTERNAL_SERVER_ERROR),
            None => r matches Ok(pair) && Some(pair.0) == jwt_issuer && pair.1.pem@
                == unescape_newlines(jwt_private_key->0@),
        },
{
    let Some(jwt_iss) = jwt_issuer else {
        return Err(ApiError::of("JWT_ISSUER not found", StatusCode::INTERNAL_SERVER_ERROR));
    };
    let Some(jwt_pk) = jwt_private_key else {
        return Err(ApiError::of("JWT_PRIVATE_KEY not found", StatusCode::INTERNAL_SERVER_ERROR));
    };
    let pem = expand_newlines(jwt_pk.as_str());
    match rsa_key_from_pem(pem.as_str().as_bytes()) {
        Ok(_) => Ok((jwt_iss, SigningKey { pem })),
        Err(_) => Err(
            ApiError::of("Failed to parse JWT_PRIVATE_KEY", StatusCode::INTERNAL_SERVER_ERROR),
        ),
    }
}

/// A freshly issued set of credentials, with the digests under which the
/// access and refresh tokens are kept.
pub struct Issued {
    pub response: TokenResponse,
    pub access_token_digest: String,
    pub refresh_token_digest: String,
}

impl Issued {
    /// The digests are those of the tokens handed out.
    pub open spec fn digests_match(self) -> bool {
        &&& self.access_token_digest@ == sha256_hex(self.response.access_token@)
        &&& self.refresh_token_digest@ == sha256_hex(self.response.refresh_token@)
    }
}

/// Puts issued credentials together from an ID token, the outcome of signing
/// the access token, and a refresh token. A failed signing ends with status
/// 500.
pub fn issue_from(id_token: String, access_token: Result<String, String>, refresh_token: String) -> (r:
    Result<Issued, ApiError>)
    ensures
        match access_token {
            Ok(a) => r matches Ok(i) && i.response.access_token == a && i.response.refresh_token
                == refresh_token && i.response.id_token == id_token && i.digests_match(),
            Err(_) => r matches Err(e) && e.is(
                "Failed to generate access token"@,
                StatusCode::INTERNAL_SERVER_ERROR,
            ),
        },
{
    let Ok(access_token) = access_token else {
        return Err(
            ApiError::of("Failed to generate access token", StatusCode::INTERNAL_SERVER_ERROR),
        );
    };
    let access_token_digest = hash_sha256(access_token.as_str());
    let refresh_token_digest = hash_sha256(refresh_token.as_str());
    Ok(
        Issued {
            response: TokenResponse { access_token, refresh_token, id_token },
            access_token_digest,
            refresh_token_digest,
        },
    )
}

/// What issuing gave, for the access token `expected` that signing was to
/// give: with a token, the credentials around it, kept by their digests and
/// with a refresh token of 64 random bytes; without one, status 500.
pub open spec fn issued(
    expected: Option<Seq<char>>,
    id_token: String,
    r: Result<Issued, ApiError>,
) -> bool {
    match expected {
        Some(a) => r matches Ok(i) && i.response.access_token@ == a && i.response.id_token
            == id_token && i.digests_match() && is_refresh_token(i.response.refresh_token@),
        None => r matches Err(e) && e.is(
            "Failed to generate access token"@,
            StatusCode::INTERNAL_SERVER_ERROR,
        ),
    }
}

/// Issues credentials for a session at `now`: signs an access token, draws a
/// refresh token, and computes both digests. Fails with status 500 where the
/// claims cannot be written for `now` or there is no token for them.
pub fn issue(
    id_token: String,
    scopes: Vec<String>,
    now: i64,
    jwt_iss: String,
    session_id: u128,
    user_id: u128,
    client_id: String,
    key: &SigningKey,
) -> (r: Result<Issued, ApiError>)
    ensures
        !claims_time_ok(now) ==> issued(None, id_token, r),
        claims_time_ok(now) ==> exists|jti: Seq<char>|
            jti.len() == JTI_CHARS && issued(
                #[trigger] access_token_for(
                    texts(scopes@),
                    now,
                    jwt_iss@,
                    uuid_text(session_id),
                    user_id,
                    client_id@,
                    jti,
                    key.bytes(),
                ),
                id_token,
                r,
            ),
{
    let access_token = generate_access_token(
        scopes,
        now,
        jwt_iss,
        id_text(session_id),
        user_id,
        client_id,
        key,
    );
    let refresh_token = generate_refresh_token();
    issue_from(id_token, access_token, refresh_token)
}

/// The current time in seconds since the epoch.
pub fn current_time() -> (r: i64)
{
    unix_now()
}

} // verus!
