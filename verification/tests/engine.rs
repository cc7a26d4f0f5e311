//! End-to-end tests of the delegation engine: real RS256 tokens are built
//! and signed with a test RSA key, then run through decode, validation,
//! prepare and fetch.

use base64::Engine;
use rand::SeedableRng;
use rsa::traits::PublicKeyParts;
use rsa::Pkcs1v15Sign;
use rsa::RsaPrivateKey;
use sha2::Digest;

use ic_backend::api::{
    authenticated, check_authorization, get_delegation, prepare_delegation, AuthError,
};
use ic_backend::crypto::self_authenticating;
use ic_backend::delegation::{calculate_seed, delegation_signature_msg_hash};
use ic_backend::id_token::{decode, DecodeError, JWTClaims, ValidationError};
use ic_backend::sig_map::verify_signature;
use ic_backend::state::{
    begin_salt_init, init, install_salt, jwks, labeled_sig_hash, needs_salt, set_jwks,
    store_fetched_jwks, AuthConfig, SaltError, SetJwksError, State,
};
use ic_backend::types::{Auth0JWK, Auth0JWKSet, GetDelegationResponse};

const ISSUER: &str = "https://issuer.example.com/";
const AUDIENCE: &str = "test_audience";
const KEY_ID: &str = "integration_tests_key_id";
const NANOS_IN_SECONDS: u64 = 1_000_000_000;
/// Same as on the canister.
const MAX_IAT_AGE_SECONDS: u64 = 10 * 60;
/// Same as on Auth0.
const JWT_VALID_FOR_HOURS: u64 = 10;

const IAT: u64 = 1_700_000_000;
const EXP: u64 = IAT + JWT_VALID_FOR_HOURS * 3600;
const NOW_NS: u64 = (IAT + 5) * NANOS_IN_SECONDS;

fn test_key() -> RsaPrivateKey {
    let mut rng = rand::rngs::StdRng::seed_from_u64(0x1234_5678);
    RsaPrivateKey::new(&mut rng, 512).unwrap()
}

fn b64url(data: &[u8]) -> String {
    base64::engine::general_purpose::URL_SAFE_NO_PAD.encode(data)
}

fn jwks_for(key: &RsaPrivateKey) -> Auth0JWKSet {
    let public = key.to_public_key();
    Auth0JWKSet {
        keys: vec![Auth0JWK {
            kty: "RSA".to_string(),
            use_: "sig".to_string(),
            n: b64url(&public.n().to_bytes_be()),
            e: b64url(&public.e().to_bytes_be()),
            kid: KEY_ID.to_string(),
            x5t: "".to_string(),
            x5c: vec!["".to_string()],
            alg: "RS256".to_string(),
        }],
    }
}

fn sign_token(key: &RsaPrivateKey, header_json: &str, claims_json: &str) -> String {
    let message = format!("{}.{}", b64url(header_json.as_bytes()), b64url(claims_json.as_bytes()));
    let digest = sha2::Sha256::digest(message.as_bytes());
    let signature = key.sign(Pkcs1v15Sign::new::<sha2::Sha256>(), &digest).unwrap();
    format!("{}.{}", message, b64url(&signature))
}

fn claims_json(iss: &str, aud: &str, iat: u64, exp: u64, sub: &str, nonce: &str) -> String {
    format!(
        "{{\"iss\":\"{}\",\"aud\":\"{}\",\"iat\":{},\"exp\":{},\"sub\":\"{}\",\"nonce\":\"{}\"}}",
        iss, aud, iat, exp, sub, nonce
    )
}

fn header_json() -> String {
    format!("{{\"alg\":\"RS256\",\"typ\":\"JWT\",\"kid\":\"{}\"}}", KEY_ID)
}

fn make_jwt(key: &RsaPrivateKey, sub: &str, nonce: &str) -> String {
    sign_token(key, &header_json(), &claims_json(ISSUER, AUDIENCE, IAT, EXP, sub, nonce))
}

fn session_key_bytes(tag: u8) -> Vec<u8> {
    let mut out = Vec::new();
    for i in 0..32u8 {
        out.push(i.wrapping_add(tag));
    }
    out
}

fn caller_of(session_key: &Vec<u8>) -> Vec<u8> {
    self_authenticating(session_key)
}

fn new_state() -> State {
    let canister_id: Vec<u8> = vec![0, 0, 0, 0, 0, 0, 0, 7, 1, 1];
    init(
        canister_id,
        AuthConfig { issuer: ISSUER.to_string(), audience: AUDIENCE.to_string() },
    )
}

fn ready_state(key: &RsaPrivateKey) -> State {
    let mut state = new_state();
    set_jwks(&mut state, jwks_for(key)).unwrap();
    assert!(begin_salt_init(&mut state));
    install_salt(&mut state, vec![7u8; 32]).unwrap();
    state
}

#[test]
fn test_prepare_delegation() {
    let key = test_key();
    let mut state = ready_state(&key);
    let session_key = session_key_bytes(1);
    let caller = caller_of(&session_key);
    let jwt = make_jwt(&key, "test_sub", &hex::encode(&session_key));

    let res = prepare_delegation(&mut state, &caller, &jwt, NOW_NS).unwrap();

    assert_eq!(res.expiration, EXP * NANOS_IN_SECONDS);
}

#[test]
fn test_prepare_delegation_wrong_identity() {
    let key = test_key();
    let mut state = ready_state(&key);
    let session_key = session_key_bytes(1);
    let jwt = make_jwt(&key, "test_sub", &hex::encode(&session_key));

    let wrong_caller = caller_of(&session_key_bytes(2));
    let err = prepare_delegation(&mut state, &wrong_caller, &jwt, NOW_NS).unwrap_err();

    assert!(err.message().contains("caller and token principal mismatch"));
}

#[test]
fn test_prepare_delegation_anonymous() {
    let key = test_key();
    let mut state = ready_state(&key);
    let session_key = session_key_bytes(1);
    let jwt = make_jwt(&key, "test_sub", &hex::encode(&session_key));

    // the anonymous principal is the single tag byte 4
    let err = prepare_delegation(&mut state, &vec![4u8], &jwt, NOW_NS).unwrap_err();

    assert!(err.message().contains("caller and token principal mismatch"));
}

#[test]
fn test_prepare_delegation_wrong_claims() {
    let key = test_key();
    let mut state = ready_state(&key);
    let session_key = session_key_bytes(1);
    let caller = caller_of(&session_key);
    let nonce = hex::encode(&session_key);

    // wrong issuer
    {
        let jwt = sign_token(
            &key,
            &header_json(),
            &claims_json("wrong", AUDIENCE, IAT, EXP, "test_sub", &nonce),
        );
        let err = prepare_delegation(&mut state, &caller, &jwt, NOW_NS).unwrap_err();
        assert!(err.message().contains("IssuerMismatch"));
    }

    // wrong audience
    {
        let jwt = sign_token(
            &key,
            &header_json(),
            &claims_json(ISSUER, "wrong", IAT, EXP, "test_sub", &nonce),
        );
        let err = prepare_delegation(&mut state, &caller, &jwt, NOW_NS).unwrap_err();
        assert!(err.message().contains("AudienceMismatch"));
    }

    // iat too old
    {
        let iat = IAT - MAX_IAT_AGE_SECONDS - 1;
        let jwt = sign_token(
            &key,
            &header_json(),
            &claims_json(ISSUER, AUDIENCE, iat, EXP, "test_sub", &nonce),
        );
        let now_ns = IAT * NANOS_IN_SECONDS;
        let err = prepare_delegation(&mut state, &caller, &jwt, now_ns).unwrap_err();
        assert!(err.message().contains("IatTooOld"));
    }

    // expired
    {
        let jwt = sign_token(
            &key,
            &header_json(),
            &claims_json(ISSUER, AUDIENCE, IAT, EXP - 1, "test_sub", &nonce),
        );
        let now_ns = EXP * NANOS_IN_SECONDS;
        let err = prepare_delegation(&mut state, &caller, &jwt, now_ns).unwrap_err();
        assert!(err.message().contains("TokenExpired"));
    }
}

#[test]
fn test_prepare_delegation_across_upgrades() {
    let key = test_key();
    let mut state = ready_state(&key);
    let session_key = session_key_bytes(1);
    let caller = caller_of(&session_key);
    let jwt = make_jwt(&key, "test_sub", &hex::encode(&session_key));

    let res_before_upgrade = prepare_delegation(&mut state, &caller, &jwt, NOW_NS).unwrap();

    // an upgrade loses the in-memory signature map but keeps the durable
    // salt and key set
    let mut state_after = new_state();
    set_jwks(&mut state_after, jwks_for(&key)).unwrap();
    install_salt(&mut state_after, vec![7u8; 32]).unwrap();

    let res_after_upgrade = prepare_delegation(&mut state_after, &caller, &jwt, NOW_NS).unwrap();

    assert_eq!(res_before_upgrade.user_key, res_after_upgrade.user_key);
}

#[test]
fn test_prepare_delegation_different_sessions() {
    let key = test_key();
    let mut state = ready_state(&key);

    let session1 = session_key_bytes(1);
    let jwt1 = make_jwt(&key, "test_sub", &hex::encode(&session1));
    let res_session1 =
        prepare_delegation(&mut state, &caller_of(&session1), &jwt1, NOW_NS).unwrap();

    let session2 = session_key_bytes(2);
    let jwt2 = make_jwt(&key, "test_sub", &hex::encode(&session2));
    let res_session2 =
        prepare_delegation(&mut state, &caller_of(&session2), &jwt2, NOW_NS).unwrap();

    assert_eq!(res_session1.user_key, res_session2.user_key);
}

#[test]
fn test_get_delegation() {
    let key = test_key();
    let mut state = ready_state(&key);
    let session_key = session_key_bytes(1);
    let caller = caller_of(&session_key);
    let jwt = make_jwt(&key, "test_sub", &hex::encode(&session_key));

    let prepared = prepare_delegation(&mut state, &caller, &jwt, NOW_NS).unwrap();

    let res = get_delegation(&state, &caller, &jwt, prepared.expiration, NOW_NS).unwrap();
    match res {
        GetDelegationResponse::SignedDelegation(signed_delegation) => {
            assert_eq!(signed_delegation.delegation.pubkey, session_key);
            assert_eq!(signed_delegation.delegation.expiration, prepared.expiration);
            assert!(signed_delegation.delegation.targets.is_none());

            // the witness re-folds to the root digest whose labeled form
            // was published
            let salt = ic_backend::state::salt(&state).unwrap().clone();
            let seed = calculate_seed(&salt, "test_sub");
            let msg_hash =
                delegation_signature_msg_hash(&signed_delegation.delegation.pubkey, prepared.expiration);
            let root = state.sigs.root_hash();
            assert!(verify_signature(&signed_delegation.signature, &seed, &msg_hash, &root));
            assert_eq!(state.certified_data, labeled_sig_hash(&root));
        }
        _ => panic!("Expected SignedDelegation"),
    }
}

#[test]
fn test_get_delegation_wrong_sub() {
    let key = test_key();
    let mut state = ready_state(&key);
    let session_key = session_key_bytes(1);
    let caller = caller_of(&session_key);
    let nonce = hex::encode(&session_key);
    let jwt = make_jwt(&key, "test_sub", &nonce);

    let prepared = prepare_delegation(&mut state, &caller, &jwt, NOW_NS).unwrap();

    let wrong_jwt = make_jwt(&key, "wrong_sub", &nonce);
    let res = get_delegation(&state, &caller, &wrong_jwt, prepared.expiration, NOW_NS).unwrap();

    assert_eq!(res, GetDelegationResponse::NoSuchDelegation);
}

#[test]
fn test_get_delegation_wrong_expiration() {
    let key = test_key();
    let mut state = ready_state(&key);
    let session_key = session_key_bytes(1);
    let caller = caller_of(&session_key);
    let jwt = make_jwt(&key, "test_sub", &hex::encode(&session_key));

    prepare_delegation(&mut state, &caller, &jwt, NOW_NS).unwrap();

    let res = get_delegation(&state, &caller, &jwt, 0, NOW_NS).unwrap();

    assert_eq!(res, GetDelegationResponse::NoSuchDelegation);
}

#[test]
fn test_get_delegation_wrong_identity() {
    let key = test_key();
    let mut state = ready_state(&key);
    let session_key = session_key_bytes(1);
    let jwt = make_jwt(&key, "test_sub", &hex::encode(&session_key));

    let wrong_caller = caller_of(&session_key_bytes(2));
    let err = get_delegation(&state, &wrong_caller, &jwt, 0, NOW_NS).unwrap_err();

    assert!(err.message().contains("caller and token principal mismatch"));
}

#[test]
fn test_get_delegation_anonymous() {
    let key = test_key();
    let state = ready_state(&key);
    let session_key = session_key_bytes(1);
    let jwt = make_jwt(&key, "test_sub", &hex::encode(&session_key));

    let err = get_delegation(&state, &vec![4u8], &jwt, 0, NOW_NS).unwrap_err();

    assert!(err.message().contains("caller and token principal mismatch"));
}

#[test]
fn test_get_delegation_wrong_claims() {
    let key = test_key();
    let state = ready_state(&key);
    let session_key = session_key_bytes(1);
    let caller = caller_of(&session_key);
    let nonce = hex::encode(&session_key);

    // wrong issuer
    {
        let jwt = sign_token(
            &key,
            &header_json(),
            &claims_json("wrong", AUDIENCE, IAT, EXP, "test_sub", &nonce),
        );
        let err = get_delegation(&state, &caller, &jwt, 0, NOW_NS).unwrap_err();
        assert!(err.message().contains("IssuerMismatch"));
    }

    // wrong audience
    {
        let jwt = sign_token(
            &key,
            &header_json(),
            &claims_json(ISSUER, "wrong", IAT, EXP, "test_sub", &nonce),
        );
        let err = get_delegation(&state, &caller, &jwt, 0, NOW_NS).unwrap_err();
        assert!(err.message().contains("AudienceMismatch"));
    }

    // iat too old
    {
        let iat = IAT - MAX_IAT_AGE_SECONDS - 1;
        let jwt = sign_token(
            &key,
            &header_json(),
            &claims_json(ISSUER, AUDIENCE, iat, EXP, "test_sub", &nonce),
        );
        let err = get_delegation(&state, &caller, &jwt, 0, IAT * NANOS_IN_SECONDS).unwrap_err();
        assert!(err.message().contains("IatTooOld"));
    }

    // expired
    {
        let jwt = sign_token(
            &key,
            &header_json(),
            &claims_json(ISSUER, AUDIENCE, IAT, EXP - 1, "test_sub", &nonce),
        );
        let err = get_delegation(&state, &caller, &jwt, 0, EXP * NANOS_IN_SECONDS).unwrap_err();
        assert!(err.message().contains("TokenExpired"));
    }
}

#[test]
fn test_authenticated_no_user() {
    let key = test_key();
    let state = ready_state(&key);
    let identity = caller_of(&session_key_bytes(9));

    let err = authenticated(&state, &identity).unwrap_err();

    assert!(err.message().contains("No user found"));
}

#[test]
fn test_authenticated() {
    let key = test_key();
    let mut state = ready_state(&key);
    let user_sub = "test_sub".to_string();
    let session_key = session_key_bytes(1);
    let caller = caller_of(&session_key);
    let jwt = make_jwt(&key, &user_sub, &hex::encode(&session_key));

    let prepared = prepare_delegation(&mut state, &caller, &jwt, NOW_NS).unwrap();
    match get_delegation(&state, &caller, &jwt, prepared.expiration, NOW_NS).unwrap() {
        GetDelegationResponse::SignedDelegation(_) => {}
        _ => panic!("expected GetDelegationResponse::SignedDelegation"),
    }

    // the delegated identity's principal is self-authenticating in the
    // returned user key
    let user_principal = self_authenticating(&prepared.user_key);

    let res = authenticated(&state, &user_principal).unwrap();

    assert_eq!(res.user_sub, user_sub);
    assert_eq!(res.user_principal, user_principal);
}

#[test]
fn test_authenticated_wrong_identity() {
    let key = test_key();
    let mut state = ready_state(&key);
    let session_key = session_key_bytes(1);
    let caller = caller_of(&session_key);
    let jwt = make_jwt(&key, "test_sub", &hex::encode(&session_key));

    let prepared = prepare_delegation(&mut state, &caller, &jwt, NOW_NS).unwrap();
    get_delegation(&state, &caller, &jwt, prepared.expiration, NOW_NS).unwrap();

    // the session identity is not the delegated identity
    let err = authenticated(&state, &caller).unwrap_err();
    assert!(err.message().contains("No user found"));

    // neither is any other identity
    let err = authenticated(&state, &caller_of(&session_key_bytes(3))).unwrap_err();
    assert!(err.message().contains("No user found"));
}

#[test]
fn test_set_jwks_once() {
    let key = test_key();
    let mut state = new_state();

    // initially, there is no key set
    assert!(jwks(&state).is_none());

    // set a key set
    let keyset = jwks_for(&key);
    set_jwks(&mut state, keyset.clone()).unwrap();
    assert_eq!(jwks(&state).as_ref(), Some(&keyset));

    // a second bootstrap is rejected, and keeps the stored set
    let err = set_jwks(&mut state, Auth0JWKSet { keys: vec![] }).unwrap_err();
    assert_eq!(err, SetJwksError::AlreadySet);
    assert!(err
        .message()
        .contains("JWKS already set. Call sync_jwks to fetch the JWKS from the auth provider"));
    assert_eq!(jwks(&state).as_ref(), Some(&keyset));
}

#[test]
fn test_store_fetched_jwks() {
    let key = test_key();
    let mut state = new_state();
    set_jwks(&mut state, Auth0JWKSet { keys: vec![] }).unwrap();

    // a failed fetch is an error and keeps the old set
    let err = store_fetched_jwks(&mut state, None).unwrap_err();
    assert_eq!(err, ic_backend::state::JwksFetchError::FetchFailed);
    assert_eq!(jwks(&state).as_ref(), Some(&Auth0JWKSet { keys: vec![] }));

    // a successful fetch replaces the set wholesale, even after the
    // bootstrap already ran
    let keyset = jwks_for(&key);
    store_fetched_jwks(&mut state, Some(keyset.clone())).unwrap();
    assert_eq!(jwks(&state).as_ref(), Some(&keyset));
}

#[test]
fn test_salt_install_once() {
    let mut state = new_state();
    assert!(needs_salt(&state));

    // only the first caller through the guard performs the fetch
    assert!(begin_salt_init(&mut state));
    assert!(!begin_salt_init(&mut state));

    install_salt(&mut state, vec![7u8; 32]).unwrap();
    assert!(!needs_salt(&state));
    assert_eq!(ic_backend::state::salt(&state).unwrap(), &vec![7u8; 32]);

    // a racing second installation returns without changing the salt
    install_salt(&mut state, vec![8u8; 32]).unwrap();
    assert_eq!(ic_backend::state::salt(&state).unwrap(), &vec![7u8; 32]);
}

#[test]
fn test_salt_wrong_length() {
    let mut state = new_state();
    let err = install_salt(&mut state, vec![7u8; 16]).unwrap_err();
    assert_eq!(err, SaltError::WrongLength);
    assert!(needs_salt(&state));
}

#[test]
fn test_prepare_requires_salt() {
    let key = test_key();
    let mut state = new_state();
    set_jwks(&mut state, jwks_for(&key)).unwrap();
    let session_key = session_key_bytes(1);
    let caller = caller_of(&session_key);
    let jwt = make_jwt(&key, "test_sub", &hex::encode(&session_key));

    let err = prepare_delegation(&mut state, &caller, &jwt, NOW_NS).unwrap_err();
    assert_eq!(err, AuthError::SaltNotInitialized);

    // a fetch before any prepare is a normal miss, not an error
    let res = get_delegation(&state, &caller, &jwt, 0, NOW_NS).unwrap();
    assert_eq!(res, GetDelegationResponse::NoSuchDelegation);
}

#[test]
fn test_prepare_expiration_overflow() {
    let key = test_key();
    let mut state = ready_state(&key);
    let session_key = session_key_bytes(1);
    let caller = caller_of(&session_key);
    // a far-future expiry whose nanosecond value exceeds 64 bits
    let exp = u64::MAX / NANOS_IN_SECONDS + 1;
    let jwt = sign_token(
        &key,
        &header_json(),
        &claims_json(ISSUER, AUDIENCE, IAT, exp, "test_sub", &hex::encode(&session_key)),
    );

    let err = prepare_delegation(&mut state, &caller, &jwt, NOW_NS).unwrap_err();
    assert_eq!(err, AuthError::ExpirationOverflow);
}

#[test]
fn test_prepare_idempotent() {
    let key = test_key();
    let mut state = ready_state(&key);
    let session_key = session_key_bytes(1);
    let caller = caller_of(&session_key);
    let jwt = make_jwt(&key, "test_sub", &hex::encode(&session_key));

    let first = prepare_delegation(&mut state, &caller, &jwt, NOW_NS).unwrap();
    let digest_after_first = state.certified_data.clone();
    let second = prepare_delegation(&mut state, &caller, &jwt, NOW_NS).unwrap();

    assert_eq!(first.user_key, second.user_key);
    assert_eq!(first.expiration, second.expiration);
    assert_eq!(state.certified_data, digest_after_first);
    assert_eq!(state.sigs.entries.len(), 1);
}

#[test]
fn test_seed_distinct_subjects() {
    let salt = vec![7u8; 32];
    let seed1 = calculate_seed(&salt, "subject_one");
    let seed2 = calculate_seed(&salt, "subject_two");
    let seed1_again = calculate_seed(&salt, "subject_one");

    assert_eq!(seed1.len(), 32);
    assert_eq!(seed1, seed1_again);
    assert_ne!(seed1, seed2);

    // a different salt anchors different identities
    let other_salt = vec![8u8; 32];
    assert_ne!(calculate_seed(&other_salt, "subject_one"), seed1);
}

#[test]
fn test_root_digest_matches_reference() {
    let key = test_key();
    let mut state = ready_state(&key);
    let session_key = session_key_bytes(1);
    let caller = caller_of(&session_key);
    let jwt = make_jwt(&key, "test_sub", &hex::encode(&session_key));

    let prepared = prepare_delegation(&mut state, &caller, &jwt, NOW_NS).unwrap();

    // recompute the expected digest with the certification crate directly
    let salt = ic_backend::state::salt(&state).unwrap().clone();
    let seed = calculate_seed(&salt, "test_sub");
    let msg_hash = delegation_signature_msg_hash(&session_key, prepared.expiration);

    let leaf = ic_certification::hash_tree::leaf_hash(b"");
    let inner = ic_certification::hash_tree::labeled_hash(&msg_hash, &leaf);
    let entry = ic_certification::hash_tree::labeled_hash(&seed, &inner);
    let expected_root = ic_certification::hash_tree::fork_hash(&entry, &[0u8; 32]);

    assert_eq!(state.sigs.root_hash(), expected_root.to_vec());
    assert_eq!(
        state.certified_data,
        ic_certification::hash_tree::labeled_hash(b"sig", &expected_root).to_vec()
    );
}

#[test]
fn test_decode_claims_roundtrip() {
    let key = test_key();
    let keyset = Some(jwks_for(&key));
    let jwt = make_jwt(&key, "test_sub", "0a0b0c");

    let token = decode(&keyset, &jwt, "RS256").unwrap();
    assert_eq!(token.claims.iss, ISSUER);
    assert_eq!(token.claims.aud, AUDIENCE);
    assert_eq!(token.claims.iat, IAT);
    assert_eq!(token.claims.exp, EXP);
    assert_eq!(token.claims.sub, "test_sub");
    assert_eq!(token.claims.nonce, "0a0b0c");
    assert_eq!(token.header.alg.as_deref(), Some("RS256"));
    assert_eq!(token.header.kid.as_deref(), Some(KEY_ID));
}

#[test]
fn test_decode_errors() {
    let key = test_key();
    let keyset = Some(jwks_for(&key));
    let jwt = make_jwt(&key, "test_sub", "0a0b0c");

    // no key set stored yet
    assert_eq!(decode(&None, &jwt, "RS256").unwrap_err(), DecodeError::NoWorkingKey);

    // wrong segment counts
    assert_eq!(decode(&keyset, "nodots", "RS256").unwrap_err(), DecodeError::InvalidToken);
    assert_eq!(decode(&keyset, "one.dot", "RS256").unwrap_err(), DecodeError::InvalidToken);

    // unknown key id
    let other_header = "{\"alg\":\"RS256\",\"typ\":\"JWT\",\"kid\":\"unknown_key\"}";
    let jwt_unknown_kid =
        sign_token(&key, other_header, &claims_json(ISSUER, AUDIENCE, IAT, EXP, "s", "aa"));
    assert_eq!(decode(&keyset, &jwt_unknown_kid, "RS256").unwrap_err(), DecodeError::NoWorkingKey);

    // missing key id
    let no_kid_header = "{\"alg\":\"RS256\",\"typ\":\"JWT\"}";
    let jwt_no_kid =
        sign_token(&key, no_kid_header, &claims_json(ISSUER, AUDIENCE, IAT, EXP, "s", "aa"));
    assert_eq!(decode(&keyset, &jwt_no_kid, "RS256").unwrap_err(), DecodeError::NoWorkingKey);

    // algorithm not the pinned one
    let rs384_header = format!("{{\"alg\":\"RS384\",\"typ\":\"JWT\",\"kid\":\"{}\"}}", KEY_ID);
    let jwt_rs384 =
        sign_token(&key, &rs384_header, &claims_json(ISSUER, AUDIENCE, IAT, EXP, "s", "aa"));
    assert_eq!(decode(&keyset, &jwt_rs384, "RS256").unwrap_err(), DecodeError::InvalidAlgorithm);

    // tampered signature
    let mut tampered = jwt.clone();
    let flipped = if tampered.ends_with('A') { 'B' } else { 'A' };
    tampered.pop();
    tampered.push(flipped);
    assert_eq!(decode(&keyset, &tampered, "RS256").unwrap_err(), DecodeError::InvalidSignature);

    // claims segment that is not base64url, under a valid signature
    let bad_b64_message = format!("{}.{}", b64url(header_json().as_bytes()), "!!!");
    let digest = sha2::Sha256::digest(bad_b64_message.as_bytes());
    let sig = key.sign(Pkcs1v15Sign::new::<sha2::Sha256>(), &digest).unwrap();
    let jwt_bad_b64 = format!("{}.{}", bad_b64_message, b64url(&sig));
    assert_eq!(decode(&keyset, &jwt_bad_b64, "RS256").unwrap_err(), DecodeError::Base64);

    // claims segment that decodes but is not the claims object
    let bad_json_message =
        format!("{}.{}", b64url(header_json().as_bytes()), b64url(b"notjson"));
    let digest = sha2::Sha256::digest(bad_json_message.as_bytes());
    let sig = key.sign(Pkcs1v15Sign::new::<sha2::Sha256>(), &digest).unwrap();
    let jwt_bad_json = format!("{}.{}", bad_json_message, b64url(&sig));
    assert_eq!(decode(&keyset, &jwt_bad_json, "RS256").unwrap_err(), DecodeError::Json);
}

#[test]
fn test_nonce_not_hex() {
    let key = test_key();
    let state = ready_state(&key);
    let session_key = session_key_bytes(1);
    let caller = caller_of(&session_key);
    let jwt = make_jwt(&key, "test_sub", "zz-not-hex");

    let err = check_authorization(&state, &caller, &jwt, NOW_NS / NANOS_IN_SECONDS).unwrap_err();
    assert_eq!(err, AuthError::NonceNotHex);
}

#[test]
fn test_expiration_timestamp_ns_formula() {
    let claims = JWTClaims {
        iss: ISSUER.to_string(),
        aud: AUDIENCE.to_string(),
        iat: 4,
        exp: 5,
        sub: "s".to_string(),
        nonce: "aa".to_string(),
    };
    assert_eq!(claims.expiration_timestamp_ns(), 5_000_000_000);
}

#[test]
fn test_validate_each_error() {
    let claims = JWTClaims {
        iss: ISSUER.to_string(),
        aud: AUDIENCE.to_string(),
        iat: IAT,
        exp: EXP,
        sub: "s".to_string(),
        nonce: "aa".to_string(),
    };

    assert_eq!(claims.validate(ISSUER, AUDIENCE, IAT + 5), Ok(()));
    assert_eq!(claims.validate(ISSUER, AUDIENCE, EXP + 1), Err(ValidationError::TokenExpired));
    assert_eq!(
        claims.validate(ISSUER, AUDIENCE, IAT + MAX_IAT_AGE_SECONDS + 1),
        Err(ValidationError::IatTooOld)
    );
    assert_eq!(
        claims.validate("https://other.example/", AUDIENCE, IAT + 5),
        Err(ValidationError::IssuerMismatch)
    );
    assert_eq!(
        claims.validate(ISSUER, "other_audience", IAT + 5),
        Err(ValidationError::AudienceMismatch)
    );
}

#[test]
fn test_self_authenticating_matches_reference() {
    let key_material = session_key_bytes(5);
    let expected = candid::Principal::self_authenticating(&key_material);
    assert_eq!(self_authenticating(&key_material), expected.as_slice().to_vec());
}

#[test]
fn test_find_key() {
    let key = test_key();
    let keyset = jwks_for(&key);
    assert!(keyset.find_key(KEY_ID).is_some());
    assert_eq!(keyset.find_key(KEY_ID).unwrap().kid, KEY_ID);
    assert!(keyset.find_key("absent").is_none());
}
