//! Bearer-token verification: structural decoding, signature verification
//! against the current verification key set, and claim validation.

use vstd::prelude::*;

use crate::types::{Auth0JWKSet, JwksView, spec_find_key};
use crate::utils::{b64url_of, base64_decode, str_eq, NANOS_IN_SECONDS};
use vstd::string::StrSliceExecFns;

verus! {

/// The maximum age of a token, checked against its `iat` claim: a token
/// issued longer ago than this is rejected whatever its stated expiry.
pub const MAX_IAT_AGE_SECONDS: u64 = 10 * 60;

/// The validated claims of a bearer token.
#[derive(Clone, Debug, PartialEq)]
pub struct JWTClaims {
    pub iss: String,
    pub aud: String,
    /// Issued at (seconds since the unix epoch).
    pub iat: u64,
    /// Expires at (seconds since the unix epoch).
    pub exp: u64,
    pub sub: String,
    pub nonce: String,
}

/// Specification-level image of [`JWTClaims`].
pub struct JWTClaimsView {
    pub iss: Seq<char>,
    pub aud: Seq<char>,
    pub iat: u64,
    pub exp: u64,
    pub sub: Seq<char>,
    pub nonce: Seq<char>,
}

impl View for JWTClaims {
    type V = JWTClaimsView;

    open spec fn view(&self) -> JWTClaimsView {
        JWTClaimsView {
            iss: self.iss@,
            aud: self.aud@,
            iat: self.iat,
            exp: self.exp,
            sub: self.sub@,
            nonce: self.nonce@,
        }
    }
}

/// The fields of a token's header that the verifier reads.
#[derive(Clone, Debug, PartialEq)]
pub struct JWTHeader {
    pub alg: Option<String>,
    pub kid: Option<String>,
}

/// Specification-level image of [`JWTHeader`].
pub struct JWTHeaderView {
    pub alg: Option<Seq<char>>,
    pub kid: Option<Seq<char>>,
}

impl View for JWTHeader {
    type V = JWTHeaderView;

    open spec fn view(&self) -> JWTHeaderView {
        JWTHeaderView {
            alg: match self.alg {
                Some(ref a) => Some(a@),
                None => None,
            },
            kid: match self.kid {
                Some(ref k) => Some(k@),
                None => None,
            },
        }
    }
}

/// A decoded token: its header and its claims.
#[derive(Clone, Debug, PartialEq)]
pub struct IdToken {
    pub header: JWTHeader,
    pub claims: JWTClaims,
}

/// Specification-level image of an [`IdToken`].
pub struct IdTokenView {
    pub header: JWTHeaderView,
    pub claims: JWTClaimsView,
}

impl View for IdToken {
    type V = IdTokenView;

    open spec fn view(&self) -> IdTokenView {
        IdTokenView { header: self.header@, claims: self.claims@ }
    }
}

/// Why claim validation rejected a token.
#[derive(Clone, Copy, Debug, PartialEq, Eq, Structural)]
pub enum ValidationError {
    TokenExpired,
    IatTooOld,
    IssuerMismatch,
    AudienceMismatch,
}

/// Why decoding or signature verification rejected a token.
#[derive(Clone, Copy, Debug, PartialEq, Eq, Structural)]
pub enum DecodeError {
    /// The token does not split into three dot-separated segments.
    InvalidToken,
    /// No key set has been stored yet, the header carries no key id, or the
    /// key id is unknown.
    NoWorkingKey,
    /// The header's algorithm is missing or is not the pinned one.
    InvalidAlgorithm,
    /// The resolved key's RSA components cannot be decoded.
    InvalidKeyFormat,
    /// The signature does not verify under the resolved key.
    InvalidSignature,
    /// A base64url segment does not decode.
    Base64,
    /// A decoded segment is not the expected JSON document.
    Json,
}

impl ValidationError {
    /// The message each rejection is reported outward with.
    pub open spec fn spec_message(&self) -> Seq<char> {
        match self {
            ValidationError::TokenExpired => "TokenExpired"@,
            ValidationError::IatTooOld => "IatTooOld"@,
            ValidationError::IssuerMismatch => "IssuerMismatch"@,
            ValidationError::AudienceMismatch => "AudienceMismatch"@,
        }
    }

    /// The outward rejection message.
    pub fn message(&self) -> (r: String)
        ensures
            r@ == self.spec_message(),
    {
        match self {
            ValidationError::TokenExpired => "TokenExpired".to_owned(),
            ValidationError::IatTooOld => "IatTooOld".to_owned(),
            ValidationError::IssuerMismatch => "IssuerMismatch".to_owned(),
            ValidationError::AudienceMismatch => "AudienceMismatch".to_owned(),
        }
    }
}

impl DecodeError {
    /// The message each rejection is reported outward with.
    pub open spec fn spec_message(&self) -> Seq<char> {
        match self {
            DecodeError::InvalidToken => "InvalidToken"@,
            DecodeError::NoWorkingKey => "NoWorkingKey"@,
            DecodeError::InvalidAlgorithm => "InvalidAlgorithm"@,
            DecodeError::InvalidKeyFormat => "InvalidKeyFormat"@,
            DecodeError::InvalidSignature => "InvalidSignature"@,
            DecodeError::Base64 => "Base64"@,
            DecodeError::Json => "Json"@,
        }
    }

    /// The outward rejection message.
    pub fn message(&self) -> (r: String)
        ensures
            r@ == self.spec_message(),
    {
        match self {
            DecodeError::InvalidToken => "InvalidToken".to_owned(),
            DecodeError::NoWorkingKey => "NoWorkingKey".to_owned(),
            DecodeError::InvalidAlgorithm => "InvalidAlgorithm".to_owned(),
            DecodeError::InvalidKeyFormat => "InvalidKeyFormat".to_owned(),
            DecodeError::InvalidSignature => "InvalidSignature".to_owned(),
            DecodeError::Base64 => "Base64".to_owned(),
            DecodeError::Json => "Json".to_owned(),
        }
    }
}

/// The outcome of validating claims against the configuration and the
/// current time, in the order the checks are made.
pub open spec fn spec_validate(
    c: JWTClaimsView,
    issuer: Seq<char>,
    audience: Seq<char>,
    now_s: u64,
) -> Result<(), ValidationError> {
    if c.exp < now_s {
        Err(ValidationError::TokenExpired)
    } else if c.iat + MAX_IAT_AGE_SECONDS < now_s {
        Err(ValidationError::IatTooOld)
    } else if c.iss != issuer {
        Err(ValidationError::IssuerMismatch)
    } else if c.aud != audience {
        Err(ValidationError::AudienceMismatch)
    } else {
        Ok(())
    }
}

impl JWTClaims {
    /// The claimed expiry in nanoseconds since the unix epoch.
    pub fn expiration_timestamp_ns(&self) -> (r: u64)
        requires
            self.exp * NANOS_IN_SECONDS <= u64::MAX,
        ensures
            r == self.exp * NANOS_IN_SECONDS,
    {
        self.exp * NANOS_IN_SECONDS
    }

    /// Temporal and identity validation: expiry and freshness against
    /// `now_s`, issuer and audience against the configuration.
    pub fn validate(&self, issuer: &str, audience: &str, now_s: u64) -> (r: Result<
        (),
        ValidationError,
    >)
        ensures
            r == spec_validate(self@, issuer@, audience@, now_s),
    {
        if self.exp < now_s {
            return Err(ValidationError::TokenExpired);
        }
        let fresh = match self.iat.checked_add(MAX_IAT_AGE_SECONDS) {
            Some(limit) => limit >= now_s,
            None => true,
        };
        if !fresh {
            return Err(ValidationError::IatTooOld);
        }
        if !str_eq(self.iss.as_str(), issuer) {
            return Err(ValidationError::IssuerMismatch);
        }
        if !str_eq(self.aud.as_str(), audience) {
            return Err(ValidationError::AudienceMismatch);
        }
        Ok(())
    }
}

/// What parsing the claims JSON yields, if the bytes are a JSON object with
/// the six required fields of the right types.
pub uninterp spec fn spec_parse_claims(bytes: Seq<u8>) -> Option<JWTClaimsView>;

/// Relies on serde_json::from_slice and the serde_json::Value accessors:
/// the parsed claims are a function of the input bytes alone.
#[verifier::external_body]
fn parse_claims_bytes(bytes: &Vec<u8>) -> (r: Option<JWTClaims>)
    ensures
        r is Some <==> spec_parse_claims(bytes@) is Some,
        r matches Some(c) ==> spec_parse_claims(bytes@) == Some(c@),
{
    let v: serde_json::Value = serde_json::from_slice(bytes).ok()?;
    Some(
        JWTClaims {
            iss: v.get("iss")?.as_str()?.to_string(),
            aud: v.get("aud")?.as_str()?.to_string(),
            iat: v.get("iat")?.as_u64()?,
            exp: v.get("exp")?.as_u64()?,
            sub: v.get("sub")?.as_str()?.to_string(),
            nonce: v.get("nonce")?.as_str()?.to_string(),
        },
    )
}

/// What parsing the header JSON yields: its optional `alg` and `kid`
/// strings, if the bytes are a JSON document.
pub uninterp spec fn spec_parse_header(bytes: Seq<u8>) -> Option<JWTHeaderView>;

/// Relies on serde_json::from_slice and the serde_json::Value accessors:
/// the parsed header is a function of the input bytes alone.
#[verifier::external_body]
fn parse_header_bytes(bytes: &Vec<u8>) -> (r: Option<JWTHeader>)
    ensures
        r is Some <==> spec_parse_header(bytes@) is Some,
        r matches Some(h) ==> spec_parse_header(bytes@) == Some(h@),
{
    let v: serde_json::Value = serde_json::from_slice(bytes).ok()?;
    Some(
        JWTHeader {
            alg: v.get("alg").and_then(|a| a.as_str()).map(|s| s.to_string()),
            kid: v.get("kid").and_then(|k| k.as_str()).map(|s| s.to_string()),
        },
    )
}

/// Whether the RSA components `(n, e)` decode into a usable public key.
pub uninterp spec fn rsa_key_ok(n: Seq<char>, e: Seq<char>) -> bool;

/// Whether `signature` is a valid RS256 signature over `message` under the
/// key with components `(n, e)`.
pub uninterp spec fn rs256_valid(
    signature: Seq<char>,
    message: Seq<char>,
    n: Seq<char>,
    e: Seq<char>,
) -> bool;

/// Relies on jsonwebtoken_rustcrypto: DecodingKey::from_rsa_components
/// builds an RSA key from its base64url components and crypto::verify checks
/// an RS256 signature over the message; both depend on their string
/// arguments alone. A signature that fails to decode or to verify counts as
/// invalid.
#[verifier::external_body]
fn rs256_verify(signature: &str, message: &str, n: &str, e: &str) -> (r: Result<bool, DecodeError>)
    ensures
        r matches Ok(b) ==> rsa_key_ok(n@, e@) && b == rs256_valid(signature@, message@, n@, e@),
        r matches Err(er) ==> er == DecodeError::InvalidKeyFormat && !rsa_key_ok(n@, e@),
{
    let key = match jsonwebtoken_rustcrypto::DecodingKey::from_rsa_components(n, e) {
        Ok(k) => k,
        Err(_) => return Err(DecodeError::InvalidKeyFormat),
    };
    let alg = jsonwebtoken_rustcrypto::Algorithm::RS256;
    match jsonwebtoken_rustcrypto::crypto::verify(signature, message, &key, alg) {
        Ok(b) => Ok(b),
        Err(_) => Ok(false),
    }
}

/// The position of the last occurrence of `c` in `s`, or -1 if `c` does not
/// occur.
pub open spec fn last_index_of_char(s: Seq<char>, c: char) -> int
    decreases s.len(),
{
    if s.len() == 0 {
        -1
    } else if s.last() == c {
        s.len() - 1
    } else {
        last_index_of_char(s.drop_last(), c)
    }
}

proof fn lemma_last_index_found(s: Seq<char>, c: char, k: int)
    requires
        0 <= k < s.len(),
        s[k] == c,
        forall|j: int| k < j < s.len() ==> s[j] != c,
    ensures
        last_index_of_char(s, c) == k,
    decreases s.len(),
{
    if k < s.len() - 1 {
        lemma_last_index_found(s.drop_last(), c, k);
    }
}

proof fn lemma_last_index_absent(s: Seq<char>, c: char)
    requires
        forall|j: int| 0 <= j < s.len() ==> s[j] != c,
    ensures
        last_index_of_char(s, c) == -1,
    decreases s.len(),
{
    if s.len() > 0 {
        lemma_last_index_absent(s.drop_last(), c);
    }
}

/// The position of the last `.` of `s`, if any.
fn find_last_dot(s: &str) -> (r: Option<usize>)
    ensures
        match r {
            Some(i) => i < s@.len() && last_index_of_char(s@, '.') == i as int,
            None => last_index_of_char(s@, '.') == -1,
        },
{
    let n = s.unicode_len();
    let mut i = n;
    while i > 0
        invariant
            i <= n,
            n == s@.len(),
            forall|j: int| i <= j < n ==> s@[j] != '.',
        decreases i,
    {
        i = i - 1;
        if s.get_char(i) == '.' {
            proof {
                lemma_last_index_found(s@, '.', i as int);
            }
            return Some(i);
        }
    }
    proof {
        lemma_last_index_absent(s@, '.');
    }
    None
}

/// The view of an optional key set.
pub open spec fn spec_jwks_view(j: Option<Auth0JWKSet>) -> Option<JwksView> {
    match j {
        Some(s) => Some(s@),
        None => None,
    }
}

/// The complete outcome of decoding `token` against the key set and the
/// pinned algorithm: the token is split on its last two separators, the
/// header is decoded, its key id resolved, the algorithm compared, the
/// signature verified over the exact header-and-claims bytes, and the
/// claims parsed; every failure is a distinct error.
pub open spec fn spec_decode(
    jwks: Option<JwksView>,
    token: Seq<char>,
    expected_alg: Seq<char>,
) -> Result<IdTokenView, DecodeError> {
    let d1 = last_index_of_char(token, '.');
    if d1 < 0 {
        Err(DecodeError::InvalidToken)
    } else {
        let signature = token.skip(d1 + 1);
        let message = token.take(d1);
        let d2 = last_index_of_char(message, '.');
        if d2 < 0 {
            Err(DecodeError::InvalidToken)
        } else {
            let claims_b64 = message.skip(d2 + 1);
            let header_b64 = message.take(d2);
            match jwks {
                None => Err(DecodeError::NoWorkingKey),
                Some(keyset) => match b64url_of(header_b64) {
                    None => Err(DecodeError::Base64),
                    Some(header_bytes) => match spec_parse_header(header_bytes) {
                        None => Err(DecodeError::Json),
                        Some(header) => match header.kid {
                            None => Err(DecodeError::NoWorkingKey),
                            Some(kid) => match spec_find_key(keyset.keys, kid) {
                                None => Err(DecodeError::NoWorkingKey),
                                Some(jwk) => match header.alg {
                                    None => Err(DecodeError::InvalidAlgorithm),
                                    Some(alg) => if alg != expected_alg {
                                        Err(DecodeError::InvalidAlgorithm)
                                    } else if !rsa_key_ok(jwk.n, jwk.e) {
                                        Err(DecodeError::InvalidKeyFormat)
                                    } else if !rs256_valid(signature, message, jwk.n, jwk.e) {
                                        Err(DecodeError::InvalidSignature)
                                    } else {
                                        match b64url_of(claims_b64) {
                                            None => Err(DecodeError::Base64),
                                            Some(claims_bytes) => match spec_parse_claims(
                                                claims_bytes,
                                            ) {
                                                None => Err(DecodeError::Json),
                                                Some(claims) => Ok(
                                                    IdTokenView { header, claims },
                                                ),
                                            },
                                        }
                                    },
                                },
                            },
                        },
                    },
                },
            }
        }
    }
}

/// Decodes and cryptographically verifies a bearer token against the stored
/// key set, pinning the signing algorithm to `expected_alg`.
pub fn decode(jwks: &Option<Auth0JWKSet>, token: &str, expected_alg: &str) -> (r: Result<
    IdToken,
    DecodeError,
>)
    ensures
        match r {
            Ok(t) => spec_decode(spec_jwks_view(*jwks), token@, expected_alg@) == Ok::<
                IdTokenView,
                DecodeError,
            >(t@),
            Err(e) => spec_decode(spec_jwks_view(*jwks), token@, expected_alg@) == Err::<
                IdTokenView,
                DecodeError,
            >(e),
        },
{
    let n = s_len(token);
    let d1 = match find_last_dot(token) {
        Some(i) => i,
        None => {
            return Err(DecodeError::InvalidToken);
        },
    };
    let message = token.substring_char(0, d1);
    let signature = token.substring_char(d1 + 1, n);
    proof {
        assert(message@ =~= token@.take(d1 as int));
        assert(signature@ =~= token@.skip(d1 + 1));
    }
    let m = s_len(message);
    let d2 = match find_last_dot(message) {
        Some(i) => i,
        None => {
            return Err(DecodeError::InvalidToken);
        },
    };
    let header_b64 = message.substring_char(0, d2);
    let claims_b64 = message.substring_char(d2 + 1, m);
    proof {
        assert(header_b64@ =~= message@.take(d2 as int));
        assert(claims_b64@ =~= message@.skip(d2 + 1));
    }
    let keyset = match jwks {
        Some(j) => j,
        None => {
            return Err(DecodeError::NoWorkingKey);
        },
    };
    let header_bytes = match base64_decode(header_b64) {
        Ok(b) => b,
        Err(e) => {
            return Err(e);
        },
    };
    let header = match parse_header_bytes(&header_bytes) {
        Some(h) => h,
        None => {
            return Err(DecodeError::Json);
        },
    };
    let kid = match &header.kid {
        Some(k) => k,
        None => {
            return Err(DecodeError::NoWorkingKey);
        },
    };
    let jwk = match keyset.find_key(kid.as_str()) {
        Some(k) => k,
        None => {
            return Err(DecodeError::NoWorkingKey);
        },
    };
    let alg_ok = match &header.alg {
        Some(a) => str_eq(a.as_str(), expected_alg),
        None => {
            return Err(DecodeError::InvalidAlgorithm);
        },
    };
    if !alg_ok {
        return Err(DecodeError::InvalidAlgorithm);
    }
    let verified = match rs256_verify(signature, message, jwk.n.as_str(), jwk.e.as_str()) {
        Ok(b) => b,
        Err(e) => {
            return Err(e);
        },
    };
    if !verified {
        return Err(DecodeError::InvalidSignature);
    }
    let claims_bytes = match base64_decode(claims_b64) {
        Ok(b) => b,
        Err(e) => {
            return Err(e);
        },
    };
    let claims = match parse_claims_bytes(&claims_bytes) {
        Some(c) => c,
        None => {
            return Err(DecodeError::Json);
        },
    };
    Ok(IdToken { header, claims })
}

/// The character length of a string.
fn s_len(s: &str) -> (n: usize)
    ensures
        n == s@.len(),
{
    s.unicode_len()
}

} // verus!
