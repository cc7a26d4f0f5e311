//! The caller-facing operations: authorization of a caller against its
//! bearer token, delegation issue and fetch, and the registry query. The
//! boundary layer converts each typed error into its outward rejection
//! message.

use vstd::prelude::*;

use crate::crypto::{self_auth_of, self_authenticating};
use crate::delegation::{
    spec_get_delegation, spec_prepare_delegation, spec_principal_of_sub, spec_user_key,
    spec_calculate_seed, spec_delegation_msg_hash,
};
use crate::id_token::{
    spec_decode, spec_validate, DecodeError, IdToken, IdTokenView, ValidationError,
};
use crate::sig_map::spec_digest;
use crate::state::{State, StateView};
use crate::types::{
    AuthenticatedResponse, GetDelegationResponse, PrepareDelegationResponse, SessionKey,
};
use crate::utils::{
    bytes_eq, hex_decode, is_hex_digit, spec_hex_decode, unix_timestamp, NANOS_IN_SECONDS,
};

verus! {

/// Why a caller-facing operation was rejected.
#[derive(Clone, Copy, Debug, PartialEq, Eq, Structural)]
pub enum AuthError {
    /// The token failed decoding or signature verification.
    Decode(DecodeError),
    /// The token's claims failed temporal or identity validation.
    Validation(ValidationError),
    /// The token's nonce is not a hexadecimal string.
    NonceNotHex,
    /// The token's self-certifying nonce does not match the authenticated
    /// caller.
    CallerMismatch,
    /// The one-time salt has not been initialized yet.
    SaltNotInitialized,
    /// The claimed expiry does not fit a nanosecond timestamp.
    ExpirationOverflow,
    /// The caller has no registry record.
    NoUser,
}

impl AuthError {
    /// The message each rejection is reported outward with.
    pub open spec fn spec_message(&self) -> Seq<char> {
        match self {
            AuthError::Decode(e) => e.spec_message(),
            AuthError::Validation(e) => e.spec_message(),
            AuthError::NonceNotHex => "token nonce is not hex"@,
            AuthError::CallerMismatch => "caller and token principal mismatch"@,
            AuthError::SaltNotInitialized => "salt is not initialized"@,
            AuthError::ExpirationOverflow => "token expiration out of range"@,
            AuthError::NoUser => "No user found"@,
        }
    }

    /// The outward rejection message.
    pub fn message(&self) -> (r: String)
        ensures
            r@ == self.spec_message(),
    {
        match self {
            AuthError::Decode(e) => e.message(),
            AuthError::Validation(e) => e.message(),
            AuthError::NonceNotHex => "token nonce is not hex".to_owned(),
            AuthError::CallerMismatch => "caller and token principal mismatch".to_owned(),
            AuthError::SaltNotInitialized => "salt is not initialized".to_owned(),
            AuthError::ExpirationOverflow => "token expiration out of range".to_owned(),
            AuthError::NoUser => "No user found".to_owned(),
        }
    }
}

/// The pinned signing algorithm.
pub open spec fn rs256_alg() -> Seq<char> {
    "RS256"@
}

/// The outcome of authorizing a caller: the decoded, validated token and
/// the session key taken from its nonce, exactly when the token decodes,
/// its claims validate, its nonce is hex, and the nonce's
/// self-authenticating principal is the caller; each failure is a distinct
/// error, checked in this order.
pub open spec fn spec_check_authorization(
    v: StateView,
    caller: Seq<u8>,
    jwt: Seq<char>,
    now_s: u64,
) -> Result<(IdTokenView, Seq<u8>), AuthError> {
    match spec_decode(v.jwks, jwt, rs256_alg()) {
        Err(e) => Err(AuthError::Decode(e)),
        Ok(token) => match spec_validate(token.claims, v.config.issuer, v.config.audience, now_s) {
            Err(e) => Err(AuthError::Validation(e)),
            Ok(_) => if !(token.claims.nonce.len() % 2 == 0 && (forall|i: int|
                0 <= i < token.claims.nonce.len() ==> is_hex_digit(token.claims.nonce[i]))) {
                Err(AuthError::NonceNotHex)
            } else {
                let session_key = spec_hex_decode(token.claims.nonce);
                if caller != self_auth_of(session_key) {
                    Err(AuthError::CallerMismatch)
                } else {
                    Ok((token, session_key))
                }
            },
        },
    }
}

/// Authorizes a caller: decodes and verifies the token, validates its
/// claims, and requires the caller to be the self-authenticating principal
/// of the token's nonce. Nothing is mutated here; a mismatch rejects the
/// call before any seed derivation or map change.
pub fn check_authorization(state: &State, caller: &Vec<u8>, jwt: &str, now_s: u64) -> (r: Result<
    (IdToken, SessionKey),
    AuthError,
>)
    ensures
        match r {
            Ok(p) => spec_check_authorization(state@, caller@, jwt@, now_s) == Ok::<
                (IdTokenView, Seq<u8>),
                AuthError,
            >((p.0@, p.1@)),
            Err(e) => spec_check_authorization(state@, caller@, jwt@, now_s) == Err::<
                (IdTokenView, Seq<u8>),
                AuthError,
            >(e),
        },
{
    let token = match crate::id_token::decode(&state.jwks, jwt, "RS256") {
        Ok(t) => t,
        Err(e) => {
            return Err(AuthError::Decode(e));
        },
    };
    match token.claims.validate(
        state.config.issuer.as_str(),
        state.config.audience.as_str(),
        now_s,
    ) {
        Ok(_) => (),
        Err(e) => {
            return Err(AuthError::Validation(e));
        },
    }
    let session_key = match hex_decode(token.claims.nonce.as_str()) {
        Some(v) => v,
        None => {
            return Err(AuthError::NonceNotHex);
        },
    };
    let token_principal = self_authenticating(&session_key);
    if !bytes_eq(caller, &token_principal) {
        return Err(AuthError::CallerMismatch);
    }
    Ok((token, session_key))
}

/// The full prepare transition: on success the signature map gains the
/// entry, the root digest is republished, and the caller's platform
/// identity is recorded; on any rejection the state is untouched.
pub open spec fn spec_prepare(v: StateView, caller: Seq<u8>, jwt: Seq<char>, now_ns: u64) -> (
    StateView,
    Result<(Seq<u8>, u64), AuthError>,
) {
    let now_s = now_ns / NANOS_IN_SECONDS;
    match spec_check_authorization(v, caller, jwt, now_s) {
        Err(e) => (v, Err(e)),
        Ok((token, session_key)) => if v.salt is None {
            (v, Err(AuthError::SaltNotInitialized))
        } else if token.claims.exp > u64::MAX as nat / NANOS_IN_SECONDS as nat {
            (v, Err(AuthError::ExpirationOverflow))
        } else {
            let expiration = (token.claims.exp * NANOS_IN_SECONDS) as u64;
            let v1 = spec_prepare_delegation(v, token.claims.sub, session_key, expiration);
            let v2 = StateView {
                users: v1.users.insert(spec_principal_of_sub(v, token.claims.sub), token.claims.sub),
                ..v1
            };
            let user_key = spec_user_key(
                v.canister_id,
                spec_calculate_seed(v.salt.unwrap(), token.claims.sub),
            );
            (v2, Ok((user_key, expiration)))
        },
    }
}

/// Issues a delegation for the caller's token: authorizes the caller,
/// derives the seed, inserts the pending signature entry, republishes the
/// root digest, records the caller's platform identity, and returns the
/// public key material with the expiry.
pub fn prepare_delegation(state: &mut State, caller: &Vec<u8>, jwt: &str, now_ns: u64) -> (r:
    Result<PrepareDelegationResponse, AuthError>)
    requires
        old(state).wf(),
    ensures
        final(state)@ == spec_prepare(old(state)@, caller@, jwt@, now_ns).0,
        final(state).wf(),
        match r {
            Ok(resp) => spec_prepare(old(state)@, caller@, jwt@, now_ns).1 == Ok::<
                (Seq<u8>, u64),
                AuthError,
            >((resp.user_key@, resp.expiration)),
            Err(e) => spec_prepare(old(state)@, caller@, jwt@, now_ns).1 == Err::<
                (Seq<u8>, u64),
                AuthError,
            >(e),
        },
        r is Ok ==> final(state).certified_ok(),
{
    let now_s = unix_timestamp(now_ns);
    let (token, session_key) = match check_authorization(state, caller, jwt, now_s) {
        Ok(p) => p,
        Err(e) => {
            return Err(e);
        },
    };
    if crate::state::needs_salt(state) {
        return Err(AuthError::SaltNotInitialized);
    }
    if token.claims.exp > u64::MAX / NANOS_IN_SECONDS {
        return Err(AuthError::ExpirationOverflow);
    }
    proof {
        assert(token.claims.exp * NANOS_IN_SECONDS <= u64::MAX) by (nonlinear_arith)
            requires
                token.claims.exp <= u64::MAX as int / NANOS_IN_SECONDS as int,
                NANOS_IN_SECONDS == 1_000_000_000u64,
        ;
    }
    let expiration = token.claims.expiration_timestamp_ns();
    let user_key = crate::delegation::prepare_delegation(
        state,
        &token.claims.sub,
        session_key,
        expiration,
    );
    let principal = crate::delegation::get_principal(state, &token.claims.sub);
    proof {
        assert(principal@.subrange(0, 29) =~= principal@);
    }
    crate::users::register_user(state, principal, token.claims.sub);
    Ok(PrepareDelegationResponse { user_key, expiration })
}

/// The full fetch outcome: whether a signed delegation is returned, or why
/// the call was rejected. An uninitialized salt or a missing entry is the
/// normal "no such delegation" outcome, never an error.
pub open spec fn spec_get_response(
    v: StateView,
    caller: Seq<u8>,
    jwt: Seq<char>,
    expiration: u64,
    now_ns: u64,
) -> Result<bool, AuthError> {
    let now_s = now_ns / NANOS_IN_SECONDS;
    match spec_check_authorization(v, caller, jwt, now_s) {
        Err(e) => Err(e),
        Ok((token, session_key)) => if v.salt is None {
            Ok(false)
        } else {
            Ok(spec_get_delegation(v, token.claims.sub, session_key, expiration))
        },
    }
}

/// Fetches the proof for a previously prepared delegation: authorizes the
/// caller, re-derives the seed from the token's subject, and looks the
/// entry up; read-only.
pub fn get_delegation(state: &State, caller: &Vec<u8>, jwt: &str, expiration: u64, now_ns: u64) -> (r:
    Result<GetDelegationResponse, AuthError>)
    requires
        state.wf(),
    ensures
        match r {
            Ok(resp) => match resp {
                GetDelegationResponse::SignedDelegation(sd) => {
                    &&& spec_get_response(state@, caller@, jwt@, expiration, now_ns) == Ok::<
                        bool,
                        AuthError,
                    >(true)
                    &&& sd.delegation.expiration == expiration
                    &&& sd.delegation.targets is None
                    &&& match spec_check_authorization(
                        state@,
                        caller@,
                        jwt@,
                        now_ns / NANOS_IN_SECONDS,
                    ) {
                        Ok(p) => sd.delegation.pubkey@ == p.1
                            && crate::sig_map::spec_verify_signature(
                            sd.signature@,
                            spec_calculate_seed(state@.salt.unwrap(), p.0.claims.sub),
                            spec_delegation_msg_hash(p.1, expiration),
                            spec_digest(state@.sigs),
                        ),
                        Err(_) => false,
                    }
                },
                GetDelegationResponse::NoSuchDelegation => spec_get_response(
                    state@,
                    caller@,
                    jwt@,
                    expiration,
                    now_ns,
                ) == Ok::<bool, AuthError>(false),
            },
            Err(e) => spec_get_response(state@, caller@, jwt@, expiration, now_ns) == Err::<
                bool,
                AuthError,
            >(e),
        },
{
    let now_s = unix_timestamp(now_ns);
    let (token, session_key) = match check_authorization(state, caller, jwt, now_s) {
        Ok(p) => p,
        Err(e) => {
            return Err(e);
        },
    };
    if crate::state::needs_salt(state) {
        return Ok(GetDelegationResponse::NoSuchDelegation);
    }
    Ok(crate::delegation::get_delegation(state, &token.claims.sub, session_key, expiration))
}

/// Answers who the caller is: the subject its registry record holds,
/// together with the caller's own identity bytes; a caller without a
/// record is rejected.
pub fn authenticated(state: &State, caller: &Vec<u8>) -> (r: Result<
    AuthenticatedResponse,
    AuthError,
>)
    requires
        caller@.len() >= 29,
    ensures
        match r {
            Ok(resp) => state@.users.contains_key(caller@.subrange(0, 29)) && resp.user_sub@
                == state@.users[caller@.subrange(0, 29)] && resp.user_principal@ == caller@,
            Err(e) => e == AuthError::NoUser && !state@.users.contains_key(
                caller@.subrange(0, 29),
            ),
        },
{
    match crate::users::get_user_sub(state, caller) {
        Some(user_sub) => Ok(
            AuthenticatedResponse { user_sub, user_principal: caller.clone() },
        ),
        None => Err(AuthError::NoUser),
    }
}

} // verus!
