//! The process-wide state of the delegation engine, owned explicitly: the
//! one-time secret salt with its initialize-once guard, the certified
//! signature map with its published digest, the verification key set, and
//! the identity registry.

use vstd::prelude::*;

use crate::crypto::{labeled_hash, labeled_hash_of};
use crate::id_token::spec_jwks_view;
use crate::sig_map::{spec_digest, SigEntryView, SignatureMap};
use crate::types::{Auth0JWKSet, JwksView};
use crate::users::UserRegistry;

verus! {

/// The configured issuer and audience that token claims are validated
/// against.
#[derive(Clone, Debug, PartialEq, Eq)]
pub struct AuthConfig {
    pub issuer: String,
    pub audience: String,
}

/// Specification-level image of an [`AuthConfig`].
pub struct AuthConfigView {
    pub issuer: Seq<char>,
    pub audience: Seq<char>,
}

impl View for AuthConfig {
    type V = AuthConfigView;

    open spec fn view(&self) -> AuthConfigView {
        AuthConfigView { issuer: self.issuer@, audience: self.audience@ }
    }
}

/// The engine's state.
#[derive(Debug)]
pub struct State {
    /// The host module's own identity, the issuer baked into every derived
    /// public key.
    pub canister_id: Vec<u8>,
    /// The configured issuer and audience.
    pub config: AuthConfig,
    /// The one-time secret salt; `None` until installed.
    pub salt: Option<Vec<u8>>,
    /// Whether a salt fetch is already under way, so that a second caller
    /// reaching the initialization point does not start another.
    pub salt_in_flight: bool,
    /// The certified signature map.
    pub sigs: SignatureMap,
    /// The identity provider's current verification key set.
    pub jwks: Option<Auth0JWKSet>,
    /// The identity registry.
    pub users: UserRegistry,
    /// The digest last handed to the host for publication.
    pub certified_data: Vec<u8>,
}

/// Specification-level image of the [`State`].
pub struct StateView {
    pub canister_id: Seq<u8>,
    pub config: AuthConfigView,
    pub salt: Option<Seq<u8>>,
    pub salt_in_flight: bool,
    pub sigs: Seq<SigEntryView>,
    pub jwks: Option<JwksView>,
    pub users: Map<Seq<u8>, Seq<char>>,
    pub certified_data: Seq<u8>,
}

impl View for State {
    type V = StateView;

    open spec fn view(&self) -> StateView {
        StateView {
            canister_id: self.canister_id@,
            config: self.config@,
            salt: match self.salt {
                Some(ref s) => Some(s@),
                None => None,
            },
            salt_in_flight: self.salt_in_flight,
            sigs: self.sigs@,
            jwks: spec_jwks_view(self.jwks),
            users: self.users@,
            certified_data: self.certified_data@,
        }
    }
}

/// The label under which the root digest is published.
pub open spec fn sig_label() -> Seq<u8> {
    seq![115u8, 105u8, 103u8]
}

/// The value published to the host: the root digest under the signatures
/// label.
pub open spec fn spec_certified(sigs: Seq<SigEntryView>) -> Seq<u8> {
    labeled_hash_of(sig_label(), spec_digest(sigs))
}

/// Structural well-formedness of a state view.
pub open spec fn state_wf(v: StateView) -> bool {
    &&& 1 <= v.canister_id.len() <= 29
    &&& match v.salt {
        Some(s) => s.len() == 32,
        None => true,
    }
    &&& crate::sig_map::sigs_wf(v.sigs)
}

impl State {
    /// Structural well-formedness.
    pub open spec fn wf(&self) -> bool {
        state_wf(self@)
    }

    /// The published digest reflects the current signature map.
    pub open spec fn certified_ok(&self) -> bool {
        self@.certified_data == spec_certified(self@.sigs)
    }
}

/// The root digest under the signatures label.
pub fn labeled_sig_hash(root: &Vec<u8>) -> (r: Vec<u8>)
    requires
        root@.len() == 32,
    ensures
        r@ == labeled_hash_of(sig_label(), root@),
        r@.len() == 32,
{
    let label: Vec<u8> = vec![115u8, 105u8, 103u8];
    proof {
        assert(label@ =~= sig_label());
    }
    labeled_hash(&label, root)
}

/// A fresh state: no salt, no key set, no entries, no users, with the
/// digest of the empty map already published.
pub fn init(canister_id: Vec<u8>, config: AuthConfig) -> (r: State)
    requires
        1 <= canister_id@.len() <= 29,
    ensures
        r.wf(),
        r.certified_ok(),
        r@.canister_id == canister_id@,
        r@.config == config@,
        r@.salt is None,
        !r@.salt_in_flight,
        r@.sigs == Seq::<SigEntryView>::empty(),
        r@.jwks is None,
        r@.users == Map::<Seq<u8>, Seq<char>>::empty(),
{
    let sigs = SignatureMap::new();
    let root = sigs.root_hash();
    let certified_data = labeled_sig_hash(&root);
    State {
        canister_id,
        config,
        salt: None,
        salt_in_flight: false,
        sigs,
        jwks: None,
        users: UserRegistry::new(),
        certified_data,
    }
}

/// Whether the salt still needs its one-time initialization.
pub fn needs_salt(state: &State) -> (r: bool)
    ensures
        r <==> state@.salt is None,
{
    state.salt.is_none()
}

/// Claims the right to perform the one-time salt fetch. Returns true for
/// exactly the first caller to reach an uninitialized, not-in-flight state;
/// every later caller is told to wait for the fetch already under way.
pub fn begin_salt_init(state: &mut State) -> (go: bool)
    ensures
        go <==> (old(state)@.salt is None && !old(state)@.salt_in_flight),
        go ==> final(state)@ == (StateView { salt_in_flight: true, ..old(state)@ }),
        !go ==> final(state)@ == old(state)@,
{
    if state.salt.is_none() && !state.salt_in_flight {
        state.salt_in_flight = true;
        true
    } else {
        false
    }
}

/// Why installing a salt failed.
#[derive(Clone, Copy, Debug, PartialEq, Eq, Structural)]
pub enum SaltError {
    /// The randomness source returned other than 32 bytes: a fatal
    /// configuration error, since any other length breaks the seed
    /// derivation invariant.
    WrongLength,
}

/// What installing a salt does: the first installation of a well-formed
/// salt wins, every later one changes nothing, and a salt of the wrong
/// length is a fatal configuration error.
pub open spec fn spec_install_salt(v: StateView, bytes: Seq<u8>) -> (StateView, Result<
    (),
    SaltError,
>) {
    if v.salt is Some {
        (v, Ok(()))
    } else if bytes.len() == 32 {
        (StateView { salt: Some(bytes), salt_in_flight: false, ..v }, Ok(()))
    } else {
        (v, Err(SaltError::WrongLength))
    }
}

/// Installs the fetched salt. The first successful installation wins: once
/// a salt is set it is never replaced, so every caller — including one that
/// raced through the initialization window — observes the same salt.
pub fn install_salt(state: &mut State, bytes: Vec<u8>) -> (r: Result<(), SaltError>)
    ensures
        final(state)@ == spec_install_salt(old(state)@, bytes@).0,
        r == spec_install_salt(old(state)@, bytes@).1,
{
    if state.salt.is_some() {
        return Ok(());
    }
    if bytes.len() != 32 {
        return Err(SaltError::WrongLength);
    }
    state.salt = Some(bytes);
    state.salt_in_flight = false;
    Ok(())
}

/// The installed salt, if any.
pub fn salt(state: &State) -> (r: Option<&Vec<u8>>)
    ensures
        match r {
            Some(s) => state@.salt == Some(s@),
            None => state@.salt is None,
        },
{
    state.salt.as_ref()
}

/// Read access to the signature map.
pub fn signature_map(state: &State) -> (r: &SignatureMap)
    ensures
        r@ == state@.sigs,
{
    &state.sigs
}

/// Write access to the signature map. The caller must republish the root
/// digest after any mutation.
pub fn signature_map_mut(state: &mut State) -> (r: &mut SignatureMap)
    ensures
        (*r)@ == old(state)@.sigs,
        final(state)@ == (StateView { sigs: final(r)@, ..old(state)@ }),
{
    &mut state.sigs
}

/// Read access to the stored key set.
pub fn jwks(state: &State) -> (r: &Option<Auth0JWKSet>)
    ensures
        spec_jwks_view(*r) == state@.jwks,
{
    &state.jwks
}

/// Write access to the stored key set.
pub fn jwks_mut(state: &mut State) -> (r: &mut Option<Auth0JWKSet>)
    ensures
        spec_jwks_view(*r) == old(state)@.jwks,
        final(state)@ == (StateView { jwks: spec_jwks_view(*final(r)), ..old(state)@ }),
{
    &mut state.jwks
}

/// Replaces the stored key set wholesale.
pub fn store_jwks(state: &mut State, jwks: Auth0JWKSet)
    ensures
        final(state)@ == (StateView { jwks: Some(jwks@), ..old(state)@ }),
{
    state.jwks = Some(jwks);
}

/// Why the one-time bootstrap of the key set was refused.
#[derive(Clone, Copy, Debug, PartialEq, Eq, Structural)]
pub enum SetJwksError {
    /// A key set already exists; only the scheduled or operator-triggered
    /// refresh may replace it.
    AlreadySet,
}

impl SetJwksError {
    /// The message the rejection is reported outward with.
    pub open spec fn spec_message(&self) -> Seq<char> {
        "JWKS already set. Call sync_jwks to fetch the JWKS from the auth provider"@
    }

    /// The outward rejection message.
    pub fn message(&self) -> (r: String)
        ensures
            r@ == self.spec_message(),
    {
        match self {
            SetJwksError::AlreadySet => {
                "JWKS already set. Call sync_jwks to fetch the JWKS from the auth provider".to_owned()
            },
        }
    }
}

/// What the single-use bootstrap does: it stores the key set only while
/// none exists, and rejects every later call unchanged.
pub open spec fn spec_set_jwks(v: StateView, jwks: JwksView) -> (StateView, Result<
    (),
    SetJwksError,
>) {
    if v.jwks is Some {
        (v, Err(SetJwksError::AlreadySet))
    } else {
        (StateView { jwks: Some(jwks), ..v }, Ok(()))
    }
}

/// Single-use bootstrap of the key set: succeeds exactly once, while no key
/// set exists; any later call is rejected unchanged, whatever it carries.
pub fn set_jwks(state: &mut State, jwks: Auth0JWKSet) -> (r: Result<(), SetJwksError>)
    ensures
        final(state)@ == spec_set_jwks(old(state)@, jwks@).0,
        r == spec_set_jwks(old(state)@, jwks@).1,
{
    if state.jwks.is_some() {
        return Err(SetJwksError::AlreadySet);
    }
    state.jwks = Some(jwks);
    Ok(())
}

/// Why a key-set refresh did not replace the stored set.
#[derive(Clone, Copy, Debug, PartialEq, Eq, Structural)]
pub enum JwksFetchError {
    /// The outbound fetch or the parse of its body failed; the previous key
    /// set, if any, stays in effect.
    FetchFailed,
}

/// Applies the outcome of a key-set fetch: a fetched set replaces the
/// stored one wholesale; a failed fetch is propagated as an error and
/// leaves the stored set untouched.
pub fn store_fetched_jwks(state: &mut State, fetched: Option<Auth0JWKSet>) -> (r: Result<
    (),
    JwksFetchError,
>)
    ensures
        fetched matches Some(j) ==> r is Ok && final(state)@ == (StateView {
            jwks: Some(j@),
            ..old(state)@
        }),
        fetched is None ==> r == Err::<(), JwksFetchError>(JwksFetchError::FetchFailed)
            && final(state)@ == old(state)@,
{
    match fetched {
        Some(jwks) => {
            state.jwks = Some(jwks);
            Ok(())
        },
        None => Err(JwksFetchError::FetchFailed),
    }
}

} // verus!
