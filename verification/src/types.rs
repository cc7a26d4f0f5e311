//! Core data types of the delegation engine and their specification-level
//! views.

use vstd::prelude::*;

verus! {

/// Stable subject identifier asserted by the identity provider.
pub type UserSub = String;

/// A public key, as opaque bytes.
pub type PublicKey = Vec<u8>;

/// The session public key a delegation is issued for.
pub type SessionKey = PublicKey;

/// The user's platform public key material (DER encoded).
pub type UserKey = PublicKey;

/// Nanoseconds since the unix epoch.
pub type Timestamp = u64;

/// Signature bytes: a proof of inclusion under the published root digest.
pub type Signature = Vec<u8>;

/// A delegation: a session key allowed to act for a longer-lived identity
/// until an expiry.
#[derive(Clone, Debug, PartialEq, Eq)]
pub struct Delegation {
    pub pubkey: PublicKey,
    pub expiration: Timestamp,
    pub targets: Option<Vec<Vec<u8>>>,
}

/// Specification-level image of a [`Delegation`].
pub struct DelegationView {
    pub pubkey: Seq<u8>,
    pub expiration: Timestamp,
    pub targets: Option<Seq<Seq<u8>>>,
}

impl View for Delegation {
    type V = DelegationView;

    open spec fn view(&self) -> DelegationView {
        DelegationView {
            pubkey: self.pubkey@,
            expiration: self.expiration,
            targets: match self.targets {
                Some(ts) => Some(ts.deep_view()),
                None => None,
            },
        }
    }
}

/// A delegation together with its signature bytes.
#[derive(Clone, Debug, PartialEq, Eq)]
pub struct SignedDelegation {
    pub delegation: Delegation,
    pub signature: Signature,
}

/// Specification-level image of a [`SignedDelegation`].
pub struct SignedDelegationView {
    pub delegation: DelegationView,
    pub signature: Seq<u8>,
}

impl View for SignedDelegation {
    type V = SignedDelegationView;

    open spec fn view(&self) -> SignedDelegationView {
        SignedDelegationView { delegation: self.delegation@, signature: self.signature@ }
    }
}

/// What a successful prepare call returns: the user's public key material and
/// the expiry the delegation was bound to.
#[derive(Clone, Debug, PartialEq, Eq)]
pub struct PrepareDelegationResponse {
    pub user_key: UserKey,
    pub expiration: Timestamp,
}

/// The outcome of a fetch: either a signed delegation, or the normal
/// "no such delegation" result (not an error).
#[derive(Clone, Debug, PartialEq, Eq)]
pub enum GetDelegationResponse {
    SignedDelegation(SignedDelegation),
    NoSuchDelegation,
}

/// Who a registered caller is: the provider subject and the caller's
/// platform identity bytes.
#[derive(Clone, Debug, PartialEq, Eq)]
pub struct AuthenticatedResponse {
    pub user_sub: UserSub,
    pub user_principal: Vec<u8>,
}

/// One public-key record of the identity provider's verification key set.
///
/// The `use` field of the provider's JSON is spelled `use_` here.
#[derive(Clone, Debug, PartialEq, Eq)]
pub struct Auth0JWK {
    pub kty: String,
    pub use_: String,
    pub n: String,
    pub e: String,
    pub kid: String,
    pub x5t: String,
    pub x5c: Vec<String>,
    pub alg: String,
}

/// Specification-level image of an [`Auth0JWK`].
pub struct JwkView {
    pub kty: Seq<char>,
    pub use_: Seq<char>,
    pub n: Seq<char>,
    pub e: Seq<char>,
    pub kid: Seq<char>,
    pub x5t: Seq<char>,
    pub x5c: Seq<Seq<char>>,
    pub alg: Seq<char>,
}

impl View for Auth0JWK {
    type V = JwkView;

    open spec fn view(&self) -> JwkView {
        JwkView {
            kty: self.kty@,
            use_: self.use_@,
            n: self.n@,
            e: self.e@,
            kid: self.kid@,
            x5t: self.x5t@,
            x5c: self.x5c.deep_view(),
            alg: self.alg@,
        }
    }
}

/// The identity provider's current verification key set.
#[derive(Clone, Debug, PartialEq, Eq)]
pub struct Auth0JWKSet {
    pub keys: Vec<Auth0JWK>,
}

/// Specification-level image of an [`Auth0JWKSet`].
pub struct JwksView {
    pub keys: Seq<JwkView>,
}

impl View for Auth0JWKSet {
    type V = JwksView;

    open spec fn view(&self) -> JwksView {
        JwksView { keys: Seq::new(self.keys@.len(), |i: int| self.keys@[i]@) }
    }
}

/// The first key of `keys` whose key id is `kid`, if any.
pub open spec fn spec_find_key(keys: Seq<JwkView>, kid: Seq<char>) -> Option<JwkView>
    decreases keys.len(),
{
    if keys.len() == 0 {
        None
    } else if keys[0].kid == kid {
        Some(keys[0])
    } else {
        spec_find_key(keys.drop_first(), kid)
    }
}

impl Auth0JWKSet {
    /// Looks a key id up in the set; `None` if no record carries it.
    pub fn find_key(&self, kid: &str) -> (r: Option<&Auth0JWK>)
        ensures
            match r {
                Some(k) => spec_find_key(self@.keys, kid@) == Some(k@),
                None => spec_find_key(self@.keys, kid@) is None,
            },
    {
        proof {
            assert(self@.keys.skip(0) =~= self@.keys);
        }
        let n = self.keys.len();
        for i in 0..n
            invariant
                n == self.keys.len(),
                spec_find_key(self@.keys, kid@) == spec_find_key(self@.keys.skip(i as int), kid@),
        {
            proof {
                assert(self@.keys.skip(i as int)[0] == self@.keys[i as int]);
            }
            if crate::utils::str_eq(self.keys[i].kid.as_str(), kid) {
                return Some(&self.keys[i]);
            }
            proof {
                assert(self@.keys.skip(i as int).drop_first() =~= self@.keys.skip(i + 1));
            }
        }
        proof {
            assert(self@.keys.skip(n as int) =~= Seq::<JwkView>::empty());
        }
        None
    }
}

} // verus!
