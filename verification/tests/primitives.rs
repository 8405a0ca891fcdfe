use rsa::traits::{PrivateKeyParts, PublicKeyParts};
use oauth_core::api_response::{ApiError, ApiErrorResponse, ApiSuccess, StatusCode};
use oauth_core::dto::AccessToken;
use oauth_core::entropy::char_histogram;
use oauth_core::gateway::{fault_error, GatewayFault, IdpGateway};
use oauth_core::domain::{IdPIdTokenResponse, IdpUser, IdpVerifyCredentialResponse};
use oauth_core::hasher::{hash_sha256, hash_sha512};
use oauth_core::ident::{id_text, new_id, parse_id};
use oauth_core::spi::{CacheAdapter, CacheFactory, CacheInterface};
use oauth_core::text::{
    chars_of, contains_text, find_absent, has_prefix, same_text, split_on_space, text_of,
};
use oauth_core::token::{
    access_token_claims, code_challenge, current_time, expand_newlines, generate_access_token,
    generate_access_token_with, generate_refresh_token, issue, issue_from, refresh_token_from,
    sign_claims, validate_envs, verify_pkce, SigningKey,
};


/// A small generator of fixed pseudo-random numbers, so that the test key is
/// the same in every run.
struct Fixed(u64);

impl rsa::rand_core::RngCore for Fixed {
    fn next_u32(&mut self) -> u32 {
        self.next_u64() as u32
    }

    fn next_u64(&mut self) -> u64 {
        self.0 = self.0.wrapping_add(0x9E37_79B9_7F4A_7C15);
        let mut z = self.0;
        z = (z ^ (z >> 30)).wrapping_mul(0xBF58_476D_1CE4_E5B9);
        z = (z ^ (z >> 27)).wrapping_mul(0x94D0_49BB_1331_11EB);
        z ^ (z >> 31)
    }

    fn fill_bytes(&mut self, dest: &mut [u8]) {
        for chunk in dest.chunks_mut(8) {
            let word = self.next_u64().to_le_bytes();
            chunk.copy_from_slice(&word[..chunk.len()]);
        }
    }

    fn try_fill_bytes(&mut self, dest: &mut [u8]) -> Result<(), rsa::rand_core::Error> {
        self.fill_bytes(dest);
        Ok(())
    }
}

impl rsa::rand_core::CryptoRng for Fixed {}

/// A 2048-bit RSA key made for the test, with the larger prime first.
fn test_key() -> rsa::RsaPrivateKey {
    let key = rsa::RsaPrivateKey::new(&mut Fixed(21), 2048).unwrap();
    let mut primes = key.primes().to_vec();
    primes.sort();
    primes.reverse();
    rsa::RsaPrivateKey::from_components(key.n().clone(), key.e().clone(), key.d().clone(), primes)
        .unwrap()
}

/// The test key in the two forms the tests need.
struct Keys {
    /// The private key as the configuration holds it: PEM on one line, with
    /// `\n` written out for every line feed.
    signing: String,
    /// The public key, in PEM.
    verifying: String,
}

fn keys() -> Keys {
    let key = test_key();
    let private =
        rsa::pkcs1::EncodeRsaPrivateKey::to_pkcs1_pem(&key, rsa::pkcs1::LineEnding::LF).unwrap();
    let public = rsa::pkcs1::EncodeRsaPublicKey::to_pkcs1_pem(
        &rsa::RsaPublicKey::from(&key),
        rsa::pkcs1::LineEnding::LF,
    )
    .unwrap();
    Keys { signing: private.replace('\n', "\\n"), verifying: public }
}

fn strings(items: &[&str]) -> Vec<String> {
    items.iter().map(|s| s.to_string()).collect()
}

fn signing_key(k: &Keys) -> SigningKey {
    match validate_envs(Some("issuer".to_string()), Some(k.signing.clone())) {
        Ok((_, key)) => key,
        Err(e) => panic!("key refused: {}", e.error),
    }
}

fn claims_of(k: &Keys, token: &str) -> serde_json::Value {
    let key = jsonwebtoken::DecodingKey::from_rsa_pem(k.verifying.as_bytes()).unwrap();
    let mut validation = jsonwebtoken::Validation::new(jsonwebtoken::Algorithm::RS256);
    validation.validate_aud = false;
    validation.validate_exp = false;
    validation.required_spec_claims.clear();
    jsonwebtoken::decode::<serde_json::Value>(token, &key, &validation).unwrap().claims
}

#[test]
fn split_cuts_at_every_space() {
    assert_eq!(split_on_space("openid profile"), strings(&["openid", "profile"]));
    assert_eq!(split_on_space("openid"), strings(&["openid"]));
}

#[test]
fn split_keeps_empty_pieces() {
    assert_eq!(split_on_space(""), strings(&[""]));
    assert_eq!(split_on_space(" "), strings(&["", ""]));
    assert_eq!(split_on_space("a  b"), strings(&["a", "", "b"]));
    assert_eq!(split_on_space("a "), strings(&["a", ""]));
    assert_eq!(split_on_space(" a"), strings(&["", "a"]));
}

#[test]
fn split_counts_characters_not_bytes() {
    assert_eq!(split_on_space("h\u{e9}llo w\u{f6}rld"), strings(&["h\u{e9}llo", "w\u{f6}rld"]));
}

#[test]
fn prefix_is_tested_character_by_character() {
    assert!(has_prefix("urn:ietf:params:oauth:request_uri:abc", "urn:ietf:params:oauth:request_uri:"));
    assert!(has_prefix("abc", ""));
    assert!(has_prefix("abc", "abc"));
    assert!(!has_prefix("ab", "abc"));
    assert!(!has_prefix("xbc", "abc"));
    assert!(!has_prefix("", "a"));
}

#[test]
fn text_is_compared_and_cut_by_characters() {
    assert!(same_text("a", "a"));
    assert!(!same_text("a", "A"));
    assert!(same_text("", ""));
    assert_eq!(chars_of("h\u{e9}y"), vec!['h', '\u{e9}', 'y']);
    assert_eq!(text_of(&vec!['a', 'b', 'c', 'd'], 1, 3), "bc".to_string());
    assert_eq!(text_of(&vec!['a', 'b'], 2, 2), "".to_string());
}

#[test]
fn membership_and_first_absent() {
    let allowed = strings(&["openid", "profile", "email"]);
    assert!(contains_text(&allowed, "profile"));
    assert!(!contains_text(&allowed, "Profile"));
    assert!(!contains_text(&Vec::new(), "openid"));
    assert_eq!(find_absent(&strings(&["openid", "email"]), &allowed), None);
    assert_eq!(find_absent(&strings(&["openid", "admin", "root"]), &allowed), Some(1));
    assert_eq!(find_absent(&Vec::new(), &allowed), None);
    assert_eq!(find_absent(&strings(&["x"]), &Vec::new()), Some(0));
}

#[test]
fn sha256_of_known_inputs() {
    assert_eq!(
        hash_sha256("abc"),
        "ba7816bf8f01cfea414140de5dae2223b00361a396177a9cb410ff61f20015ad"
    );
    assert_eq!(
        hash_sha256(""),
        "e3b0c44298fc1c149afbf4c8996fb92427ae41e4649b934ca495991b7852b855"
    );
    assert_eq!(
        hash_sha256("h\u{e9}llo"),
        "3c48591d8d098a4538f5e013dfcf406e948eac4d3277b10bf614e295d6068179"
    );
}

#[test]
fn sha512_of_known_input() {
    assert_eq!(
        hash_sha512("abc"),
        "ddaf35a193617abacc417349ae20413112e6fa4e89a97ea20a9eeee64b55d39a2192992a274fc1a836ba3c23a3feebbd454d4423643ce80e2a9ac94fa54ca49f"
    );
    assert_eq!(hash_sha512("abc").len(), 128);
}

#[test]
fn identifiers_are_written_hyphenated_and_lowercase() {
    assert_eq!(
        id_text(0x550e8400_e29b_41d4_a716_446655440000),
        "550e8400-e29b-41d4-a716-446655440000"
    );
    assert_eq!(id_text(0), "00000000-0000-0000-0000-000000000000");
    assert_eq!(id_text(u128::MAX), "ffffffff-ffff-ffff-ffff-ffffffffffff");
    assert_eq!(id_text(0xAB), "00000000-0000-0000-0000-0000000000ab");
}

#[test]
fn identifiers_are_read_back() {
    assert_eq!(
        parse_id("550e8400-e29b-41d4-a716-446655440000"),
        Some(0x550e8400_e29b_41d4_a716_446655440000)
    );
    assert_eq!(parse_id("not-a-uuid"), None);
    assert_eq!(parse_id(""), None);
    let id = new_id();
    assert_eq!(parse_id(&id_text(id)), Some(id));
}

#[test]
fn fresh_identifiers_are_marked_as_random() {
    for _ in 0..32 {
        let id = new_id();
        assert_eq!(
            id & 0x0000_0000_0000_f000_c000_0000_0000_0000,
            0x0000_0000_0000_4000_8000_0000_0000_0000
        );
        let text: Vec<char> = id_text(id).chars().collect();
        assert_eq!(text[14], '4');
        assert!(matches!(text[19], '8' | '9' | 'a' | 'b'));
    }
}

#[test]
fn fresh_identifiers_differ() {
    assert_ne!(new_id(), new_id());
}

#[test]
fn pkce_challenge_of_the_rfc_example() {
    let verifier = "dBjftJeZ4CVP-mB92K27uhbUJU1p1r_wW1gFWFOEjXk";
    assert_eq!(code_challenge(verifier), "E9Melhoa2OwvFrEMTJguCHaoeK1t8URWbuGJSstw-cM");
    assert!(verify_pkce(verifier, "E9Melhoa2OwvFrEMTJguCHaoeK1t8URWbuGJSstw-cM"));
    assert!(!verify_pkce(verifier, "E9Melhoa2OwvFrEMTJguCHaoeK1t8URWbuGJSstw-cN"));
    assert!(!verify_pkce("other", "E9Melhoa2OwvFrEMTJguCHaoeK1t8URWbuGJSstw-cM"));
    assert!(!verify_pkce(verifier, verifier));
}

#[test]
fn refresh_token_is_unpadded_base64url() {
    let bytes: Vec<u8> = (0u8..64).collect();
    assert_eq!(
        refresh_token_from(&bytes),
        "AAECAwQFBgcICQoLDA0ODxAREhMUFRYXGBkaGxwdHh8gISIjJCUmJygpKissLS4vMDEyMzQ1Njc4OTo7PD0-Pw"
    );
    let high: Vec<u8> = [0xfbu8, 0xff].iter().cycle().take(64).cloned().collect();
    assert_eq!(
        refresh_token_from(&high),
        "-__7__v_-__7__v_-__7__v_-__7__v_-__7__v_-__7__v_-__7__v_-__7__v_-__7__v_-__7__v_-__7_w"
    );
}

#[test]
fn generated_refresh_tokens_are_long_and_differ() {
    let a = generate_refresh_token();
    let b = generate_refresh_token();
    assert_eq!(a.len(), 86);
    assert!(a.chars().all(|c| c.is_ascii_alphanumeric() || c == '-' || c == '_'));
    assert_ne!(a, b);
}

#[test]
fn escaped_newlines_are_expanded() {
    assert_eq!(expand_newlines("a\\nb"), "a\nb");
    assert_eq!(expand_newlines("\\n\\n"), "\n\n");
    assert_eq!(expand_newlines("\\\\n"), "\\\n");
    assert_eq!(expand_newlines("ends\\"), "ends\\");
    assert_eq!(expand_newlines("plain"), "plain");
    assert_eq!(expand_newlines(""), "");
    assert_eq!(expand_newlines("a\\nb"), "a\\nb".replace("\\n", "\n"));
}

#[test]
fn claims_expire_four_hours_after_issue() {
    let c: AccessToken = access_token_claims(
        strings(&["openid"]),
        1_700_000_000,
        "issuer".to_string(),
        "sid".to_string(),
        7,
        "client".to_string(),
        "jti".to_string(),
    );
    assert_eq!(c.exp, 1_700_014_400);
    assert_eq!(c.iat, 1_700_000_000);
    assert_eq!(c.auth_time, 1_700_000_000);
    assert_eq!(c.aud, "");
    assert_eq!(c.sub, "00000000-0000-0000-0000-000000000007");
    assert_eq!(c.scopes, strings(&["openid"]));
    assert_eq!(c.iss, "issuer");
    assert_eq!(c.sid, "sid");
    assert_eq!(c.client_id, "client");
    assert_eq!(c.jti, "jti");
}

#[test]
fn signing_configuration_faults() {
    let k = keys();
    let e = validate_envs(None, Some(k.signing.clone())).err().unwrap();
    assert_eq!((e.error.as_str(), e.status_code), ("JWT_ISSUER not found", 500));
    let e = validate_envs(None, None).err().unwrap();
    assert_eq!((e.error.as_str(), e.status_code), ("JWT_ISSUER not found", 500));
    let e = validate_envs(Some("iss".to_string()), None).err().unwrap();
    assert_eq!((e.error.as_str(), e.status_code), ("JWT_PRIVATE_KEY not found", 500));
    let e = validate_envs(Some("iss".to_string()), Some("garbage".to_string())).err().unwrap();
    assert_eq!((e.error.as_str(), e.status_code), ("Failed to parse JWT_PRIVATE_KEY", 500));
    let ok = validate_envs(Some("iss".to_string()), Some(k.signing.clone()));
    assert_eq!(ok.ok().unwrap().0, "iss");
}

#[test]
fn signed_claims_verify_and_read_back() {
    let k = keys();
    let key = signing_key(&k);
    let claims = access_token_claims(
        strings(&["openid", "profile"]),
        1_700_000_000,
        "https://issuer.example".to_string(),
        "0000000a-0000-0000-0000-000000000000".to_string(),
        0x550e8400_e29b_41d4_a716_446655440000,
        "client-1".to_string(),
        "token-id".to_string(),
    );
    let token = sign_claims(claims, &key).unwrap();
    assert_eq!(token.split('.').count(), 3);
    let read = claims_of(&k, &token);
    assert_eq!(read["scopes"][0], "openid");
    assert_eq!(read["scopes"][1], "profile");
    assert_eq!(read["sub"], "550e8400-e29b-41d4-a716-446655440000");
    assert_eq!(read["exp"], 1_700_014_400u64);
    assert_eq!(read["iat"], 1_700_000_000u64);
    assert_eq!(read["auth_time"], 1_700_000_000u64);
    assert_eq!(read["iss"], "https://issuer.example");
    assert_eq!(read["aud"], "");
    assert_eq!(read["jti"], "token-id");
    assert_eq!(read["sid"], "0000000a-0000-0000-0000-000000000000");
    assert_eq!(read["client_id"], "client-1");
}

#[test]
fn claims_are_signed_in_field_order() {
    let k = keys();
    let key = signing_key(&k);
    let claims = access_token_claims(
        Vec::new(),
        10,
        "i".to_string(),
        "s".to_string(),
        1,
        "c".to_string(),
        "j".to_string(),
    );
    let token = sign_claims(claims, &key).unwrap();
    let payload = token.split('.').nth(1).unwrap();
    let json = base64::Engine::decode(&base64::engine::general_purpose::URL_SAFE_NO_PAD, payload)
        .unwrap();
    assert_eq!(
        String::from_utf8(json).unwrap(),
        "{\"scopes\":[],\"sub\":\"00000000-0000-0000-0000-000000000001\",\"exp\":14410,\"iat\":10,\"iss\":\"i\",\"aud\":\"\",\"jti\":\"j\",\"sid\":\"s\",\"client_id\":\"c\",\"auth_time\":10}"
    );
}

#[test]
fn access_token_carries_a_fresh_identifier() {
    let k = keys();
    let key = signing_key(&k);
    let make = || {
        generate_access_token(
            strings(&["openid"]),
            1_700_000_000,
            "issuer".to_string(),
            "sid".to_string(),
            9,
            "client".to_string(),
            &key,
        )
        .unwrap()
    };
    let first = claims_of(&k, &make());
    let second = claims_of(&k, &make());
    assert_eq!(first["jti"].as_str().unwrap().len(), 128);
    assert_ne!(first["jti"], second["jti"]);
    assert_eq!(first["exp"], 1_700_014_400u64);
}

#[test]
fn access_token_refuses_times_it_cannot_write() {
    let k = keys();
    let key = signing_key(&k);
    for now in [-1i64, i64::MIN, i64::MAX, i64::MAX - 14399] {
        let r = generate_access_token(
            Vec::new(),
            now,
            "issuer".to_string(),
            "sid".to_string(),
            9,
            "client".to_string(),
            &key,
        );
        assert_eq!(r, Err("Failed to encode JWT".to_string()));
    }
    let r = generate_access_token(
        Vec::new(),
        i64::MAX - 14400,
        "issuer".to_string(),
        "sid".to_string(),
        9,
        "client".to_string(),
        &key,
    );
    assert!(r.is_ok());
}

#[test]
fn signing_with_what_is_no_key_fails() {
    for pem in ["", "shared secret", "no key\nat all\n"] {
        let key = SigningKey { pem: pem.to_string() };
        let r = generate_access_token(
            Vec::new(),
            0,
            "issuer".to_string(),
            "sid".to_string(),
            9,
            "client".to_string(),
            &key,
        );
        assert_eq!(r, Err("Failed to encode JWT".to_string()));
    }
}

#[test]
fn the_token_is_a_function_of_claims_and_key() {
    let k = keys();
    let key = signing_key(&k);
    let make = |jti: &str, now: i64| {
        generate_access_token_with(
            strings(&["openid"]),
            now,
            "issuer".to_string(),
            "sid".to_string(),
            9,
            "client".to_string(),
            jti.to_string(),
            &key,
        )
        .unwrap()
    };
    let token = make("j1", 1_700_000_000);
    assert_eq!(token, make("j1", 1_700_000_000));
    assert_ne!(token, make("j2", 1_700_000_000));
    assert_ne!(token, make("j1", 1_700_000_001));
    assert_eq!(claims_of(&k, &token)["jti"], "j1");
    assert_eq!(
        generate_access_token_with(
            Vec::new(),
            -1,
            "issuer".to_string(),
            "sid".to_string(),
            9,
            "client".to_string(),
            "j".to_string(),
            &key,
        ),
        Err("Failed to encode JWT".to_string())
    );
}

#[test]
fn the_key_is_kept_as_expanded_pem() {
    let k = keys();
    let key = signing_key(&k);
    assert_eq!(key.pem, k.signing.replace("\\n", "\n"));
    assert!(key.pem.ends_with('\n'));
    assert!(!key.pem.contains('\\'));
}

#[test]
fn issued_credentials_are_kept_by_digest() {
    let issued = issue_from(
        "id-token".to_string(),
        Ok("access".to_string()),
        "refresh".to_string(),
    )
    .ok()
    .unwrap();
    assert_eq!(issued.response.access_token, "access");
    assert_eq!(issued.response.refresh_token, "refresh");
    assert_eq!(issued.response.id_token, "id-token");
    assert_eq!(issued.access_token_digest, hash_sha256("access"));
    assert_eq!(issued.refresh_token_digest, hash_sha256("refresh"));
    assert_ne!(issued.access_token_digest, "access");
    let e = issue_from("id".to_string(), Err("x".to_string()), "r".to_string()).err().unwrap();
    assert_eq!((e.error.as_str(), e.status_code), ("Failed to generate access token", 500));
}

#[test]
fn issue_signs_and_digests() {
    let k = keys();
    let key = signing_key(&k);
    let issued = issue(
        "id-token".to_string(),
        strings(&["openid"]),
        1_700_000_000,
        "issuer".to_string(),
        0xA,
        0xB,
        "client".to_string(),
        &key,
    )
    .ok()
    .unwrap();
    assert_eq!(issued.access_token_digest, hash_sha256(&issued.response.access_token));
    assert_eq!(issued.refresh_token_digest, hash_sha256(&issued.response.refresh_token));
    assert_eq!(issued.response.refresh_token.len(), 86);
    let read = claims_of(&k, &issued.response.access_token);
    assert_eq!(read["sid"], "00000000-0000-0000-0000-00000000000a");
    assert_eq!(read["sub"], "00000000-0000-0000-0000-00000000000b");
    let e = issue(
        "id".to_string(),
        Vec::new(),
        -5,
        "issuer".to_string(),
        1,
        2,
        "client".to_string(),
        &key,
    )
    .err()
    .unwrap();
    assert_eq!((e.error.as_str(), e.status_code), ("Failed to generate access token", 500));
}

#[test]
fn the_clock_is_past_the_year_2020() {
    assert!(current_time() > 1_577_836_800);
}

#[test]
fn histogram_counts_each_character_once() {
    let h = char_histogram("abca");
    let mut pairs: Vec<(char, usize)> = h.iter().map(|e| (e.ch, e.count)).collect();
    pairs.sort();
    assert_eq!(pairs, vec![('a', 2), ('b', 1), ('c', 1)]);
    assert!(char_histogram("").is_empty());
    let h = char_histogram("\u{e9}\u{e9}\u{e9}");
    assert_eq!((h.len(), h[0].ch, h[0].count), (1, '\u{e9}', 3));
}

#[test]
fn status_codes_have_their_numbers() {
    assert_eq!(StatusCode::OK.as_u16(), 200);
    assert_eq!(StatusCode::CREATED.as_u16(), 201);
    assert_eq!(StatusCode::SEE_OTHER.as_u16(), 303);
    assert_eq!(StatusCode::BAD_REQUEST.as_u16(), 400);
    assert_eq!(StatusCode::UNPROCESSABLE_ENTITY.as_u16(), 422);
    assert_eq!(StatusCode::INTERNAL_SERVER_ERROR.as_u16(), 500);
    assert_eq!(StatusCode::from_u16(303), Some(StatusCode::SEE_OTHER));
    assert_eq!(StatusCode::from_u16(422), Some(StatusCode::UNPROCESSABLE_ENTITY));
    assert_eq!(StatusCode::from_u16(404), None);
    for s in [
        StatusCode::OK,
        StatusCode::CREATED,
        StatusCode::SEE_OTHER,
        StatusCode::BAD_REQUEST,
        StatusCode::UNPROCESSABLE_ENTITY,
        StatusCode::INTERNAL_SERVER_ERROR,
    ] {
        assert_eq!(StatusCode::from_u16(s.as_u16()), Some(s));
    }
}

#[test]
fn errors_and_successes_keep_what_they_are_given() {
    let e = ApiError::new("boom".to_string(), StatusCode::BAD_REQUEST);
    assert_eq!((e.error.as_str(), e.status_code), ("boom", 400));
    let e = ApiError::of("fixed", StatusCode::INTERNAL_SERVER_ERROR);
    assert_eq!((e.error.as_str(), e.status_code), ("fixed", 500));
    let s = ApiSuccess::new(vec![1, 2], StatusCode::CREATED);
    assert_eq!((s.data, s.status_code), (vec![1, 2], 201));
    assert_eq!(ApiErrorResponse::new("body".to_string()).error, "body");
    assert_eq!(oauth_core::api_error::ApiError::new("body".to_string()).error, "body");
}

#[test]
fn gateway_addresses() {
    let g = IdpGateway::new("https://idp.example".to_string());
    assert_eq!(g.id_token_url(), "https://idp.example/api/v1/credentials/id_token");
    assert_eq!(g.verify_credential_url(), "https://idp.example/api/v1/user/verify-credential");
    assert_eq!(
        g.user_url(0x550e8400_e29b_41d4_a716_446655440000),
        "https://idp.example/api/v1/user/550e8400-e29b-41d4-a716-446655440000"
    );
}

#[test]
fn gateway_outcomes() {
    let g = IdpGateway::new(String::new());
    assert_eq!(
        g.get_id_token_v1(Ok(IdPIdTokenResponse { id_token: "t".to_string() })).ok().unwrap(),
        "t"
    );
    let e = g.get_id_token_v1(Err(GatewayFault::Send("refused".to_string()))).err().unwrap();
    assert_eq!((e.error.as_str(), e.status_code), ("Failed to send request to IDP: refused", 500));
    let e = g.verify_auth_token_v1(Err(GatewayFault::Parse("eof".to_string()))).err().unwrap();
    assert_eq!((e.error.as_str(), e.status_code), ("Failed to parse response from IDP: eof", 500));
    assert!(g.verify_auth_token_v1(Ok(IdpVerifyCredentialResponse { verified: true })).ok().unwrap());
    let user = IdpUser {
        id: 3,
        name: Some("Ada".to_string()),
        family_name: None,
        email: None,
        birthdate: None,
        gender: None,
        status: None,
        created_at: None,
        updated_at: None,
    };
    let back = g.get_user_by_id_v1(Ok(user)).ok().unwrap();
    assert_eq!((back.id, back.name), (3, Some("Ada".to_string())));
    let e = fault_error(GatewayFault::Send(String::new()));
    assert_eq!(e.error, "Failed to send request to IDP: ");
}

struct ReadyCache(u8);

impl CacheInterface for ReadyCache {
    type T = u8;

    fn connect(_host: String, _port: String, _db: String) -> u8 {
        7
    }

    fn new() -> Self {
        ReadyCache(Self::connect(String::new(), String::new(), String::new()))
    }
}

impl CacheFactory for ReadyCache {
    fn get() -> Result<Self, String> {
        Ok(ReadyCache::new())
    }
}

struct DownCache;

impl CacheInterface for DownCache {
    type T = ();

    fn connect(_host: String, _port: String, _db: String) {}

    fn new() -> Self {
        DownCache
    }
}

impl CacheFactory for DownCache {
    fn get() -> Result<Self, String> {
        Err("down".to_string())
    }
}

#[test]
fn cache_adapter_passes_on_what_the_backend_answers() {
    assert_eq!(CacheAdapter::get_cache_connection::<ReadyCache>().ok().unwrap().0, 7);
    assert_eq!(CacheAdapter::get_cache_connection::<DownCache>().err().unwrap(), "down");
}
