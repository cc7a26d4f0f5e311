//! Delegation issuance and retrieval: deterministic seed derivation, the
//! domain-separated delegation message hash, the DER-encoded public key
//! material, and the prepare / fetch operations over the engine state.

use vstd::prelude::*;

use crate::crypto::{self_auth_of, self_authenticating, sha256, sha256_of};
use crate::sig_map::{
    contains_entry, spec_add, spec_encode_witness, SigEntryView, spec_digest,
};
use crate::state::{spec_certified, labeled_sig_hash, State, StateView};
use crate::types::{
    Delegation, GetDelegationResponse, SessionKey, SignedDelegation, Timestamp, UserKey, UserSub,
};
use crate::utils::append_bytes;
use vstd::pervasive::unreached;
use vstd::string::StrSliceExecFns;
use vstd::string::StringSliceAdditionalSpecFns;
use vstd::utf8::encode_utf8;

verus! {

/// Unsigned LEB128 encoding of a number.
pub open spec fn spec_leb128(n: nat) -> Seq<u8>
    decreases n,
{
    if n < 128 {
        seq![n as u8]
    } else {
        seq![(n % 128 + 128) as u8] + spec_leb128(n / 128)
    }
}

/// Encodes a number as unsigned LEB128.
fn leb128_encode(value: u64) -> (r: Vec<u8>)
    ensures
        r@ == spec_leb128(value as nat),
{
    let mut out: Vec<u8> = Vec::new();
    let mut n = value;
    while n >= 128
        invariant
            spec_leb128(value as nat) == out@ + spec_leb128(n as nat),
        decreases n,
    {
        let ghost prev = out@;
        let ghost n0 = n as nat;
        out.push((n % 128 + 128) as u8);
        n = n / 128;
        proof {
            assert(spec_leb128(n0) =~= seq![(n0 % 128 + 128) as u8] + spec_leb128(n0 / 128));
            assert(out@ + spec_leb128(n as nat) =~= prev + spec_leb128(n0));
        }
    }
    out.push(n as u8);
    proof {
        assert(spec_leb128(n as nat) =~= seq![n as u8]);
        assert(out@ =~= spec_leb128(value as nat));
    }
    out
}

/// Lexicographic order on byte sequences, a shorter prefix first.
pub open spec fn spec_lex_leq(a: Seq<u8>, b: Seq<u8>) -> bool
    decreases a.len(),
{
    if a.len() == 0 {
        true
    } else if b.len() == 0 {
        false
    } else if a[0] < b[0] {
        true
    } else if a[0] > b[0] {
        false
    } else {
        spec_lex_leq(a.drop_first(), b.drop_first())
    }
}

/// Decides the lexicographic order of two byte vectors.
fn lex_leq(a: &Vec<u8>, b: &Vec<u8>) -> (r: bool)
    ensures
        r == spec_lex_leq(a@, b@),
{
    let an = a.len();
    let bn = b.len();
    let n = if an < bn {
        an
    } else {
        bn
    };
    proof {
        assert(a@.skip(0) =~= a@);
        assert(b@.skip(0) =~= b@);
    }
    for i in 0..n
        invariant
            n == if an < bn {
                an
            } else {
                bn
            },
            an == a@.len(),
            bn == b@.len(),
            spec_lex_leq(a@, b@) == spec_lex_leq(a@.skip(i as int), b@.skip(i as int)),
    {
        proof {
            assert(a@.skip(i as int)[0] == a@[i as int]);
            assert(b@.skip(i as int)[0] == b@[i as int]);
        }
        if a[i] < b[i] {
            return true;
        }
        if a[i] > b[i] {
            return false;
        }
        proof {
            assert(a@.skip(i as int).drop_first() =~= a@.skip(i + 1));
            assert(b@.skip(i as int).drop_first() =~= b@.skip(i + 1));
        }
    }
    proof {
        if an <= bn {
            assert(a@.skip(n as int).len() == 0);
        } else {
            assert(a@.skip(n as int).len() > 0);
            assert(b@.skip(n as int).len() == 0);
        }
    }
    an <= bn
}

/// The bytes of the map key naming the session key.
pub open spec fn pubkey_label() -> Seq<u8> {
    seq![112u8, 117u8, 98u8, 107u8, 101u8, 121u8]
}

/// The bytes of the map key naming the expiry.
pub open spec fn expiration_label() -> Seq<u8> {
    seq![
        101u8,
        120u8,
        112u8,
        105u8,
        114u8,
        97u8,
        116u8,
        105u8,
        111u8,
        110u8,
    ]
}

/// The domain separator of delegation request signatures.
pub open spec fn delegation_domain() -> Seq<u8> {
    seq![
        105u8,
        99u8,
        45u8,
        114u8,
        101u8,
        113u8,
        117u8,
        101u8,
        115u8,
        116u8,
        45u8,
        97u8,
        117u8,
        116u8,
        104u8,
        45u8,
        100u8,
        101u8,
        108u8,
        101u8,
        103u8,
        97u8,
        116u8,
        105u8,
        111u8,
        110u8,
    ]
}

/// The representation-independent hash of the delegation's field map: each
/// field contributes the hash of its key followed by the hash of its
/// encoded value, the pairs are sorted, concatenated and hashed.
pub open spec fn spec_delegation_map_hash(pubkey: Seq<u8>, expiration: u64) -> Seq<u8> {
    let pair_pk = sha256_of(pubkey_label()) + sha256_of(pubkey);
    let pair_exp = sha256_of(expiration_label()) + sha256_of(spec_leb128(expiration as nat));
    if spec_lex_leq(pair_pk, pair_exp) {
        sha256_of(pair_pk + pair_exp)
    } else {
        sha256_of(pair_exp + pair_pk)
    }
}

/// The message whose signature a delegation proof attests to: the
/// length-prefixed domain separator followed by the map hash.
pub open spec fn spec_delegation_msg(pubkey: Seq<u8>, expiration: u64) -> Seq<u8> {
    seq![26u8] + delegation_domain() + spec_delegation_map_hash(pubkey, expiration)
}

/// The domain-separated hash of the delegation message.
pub open spec fn spec_delegation_msg_hash(pubkey: Seq<u8>, expiration: u64) -> Seq<u8> {
    sha256_of(spec_delegation_msg(pubkey, expiration))
}

/// Computes the domain-separated hash of {session key, expiry, no targets}.
pub fn delegation_signature_msg_hash(pubkey: &Vec<u8>, expiration: u64) -> (r: Vec<u8>)
    ensures
        r@ == spec_delegation_msg_hash(pubkey@, expiration),
        r@.len() == 32,
{
    let pk_label: Vec<u8> = vec![112u8, 117u8, 98u8, 107u8, 101u8, 121u8];
    proof {
        assert(pk_label@ =~= pubkey_label());
    }
    let exp_label: Vec<u8> = vec![
        101u8,
        120u8,
        112u8,
        105u8,
        114u8,
        97u8,
        116u8,
        105u8,
        111u8,
        110u8,
    ];
    proof {
        assert(exp_label@ =~= expiration_label());
    }
    let mut pair_pk = sha256(&pk_label);
    let pk_hash = sha256(pubkey);
    append_bytes(&mut pair_pk, &pk_hash);
    let exp_bytes = leb128_encode(expiration);
    let mut pair_exp = sha256(&exp_label);
    let exp_hash = sha256(&exp_bytes);
    append_bytes(&mut pair_exp, &exp_hash);
    let mut concat: Vec<u8> = Vec::new();
    if lex_leq(&pair_pk, &pair_exp) {
        append_bytes(&mut concat, &pair_pk);
        append_bytes(&mut concat, &pair_exp);
    } else {
        append_bytes(&mut concat, &pair_exp);
        append_bytes(&mut concat, &pair_pk);
    }
    let map_hash = sha256(&concat);
    let mut msg: Vec<u8> = vec![26u8];
    let domain: Vec<u8> = vec![
        105u8,
        99u8,
        45u8,
        114u8,
        101u8,
        113u8,
        117u8,
        101u8,
        115u8,
        116u8,
        45u8,
        97u8,
        117u8,
        116u8,
        104u8,
        45u8,
        100u8,
        101u8,
        108u8,
        101u8,
        103u8,
        97u8,
        116u8,
        105u8,
        111u8,
        110u8,
    ];
    proof {
        assert(domain@ =~= delegation_domain());
    }
    append_bytes(&mut msg, &domain);
    append_bytes(&mut msg, &map_hash);
    proof {
        assert(msg@ =~= spec_delegation_msg(pubkey@, expiration));
    }
    sha256(&msg)
}

/// The length-prefixed blob whose hash is the derived seed.
pub open spec fn spec_seed_blob(salt: Seq<u8>, sub_bytes: Seq<u8>) -> Seq<u8> {
    seq![(salt.len() % 256) as u8] + salt + seq![(sub_bytes.len() % 256) as u8] + sub_bytes
}

/// The derived seed: the hash of the length-prefixed salt and the
/// length-prefixed UTF-8 bytes of the subject.
pub open spec fn spec_calculate_seed(salt: Seq<u8>, sub: Seq<char>) -> Seq<u8> {
    sha256_of(spec_seed_blob(salt, encode_utf8(sub)))
}

/// Derives the seed anchoring `user_sub`'s platform identity under the
/// given salt. Identical inputs always derive the identical seed.
pub fn calculate_seed(salt: &Vec<u8>, user_sub: &str) -> (r: Vec<u8>)
    requires
        salt@.len() == 32,
    ensures
        r@ == spec_calculate_seed(salt@, user_sub@),
        r@.len() == 32,
{
    let mut blob: Vec<u8> = Vec::new();
    blob.push((salt.len() % 256) as u8);
    append_bytes(&mut blob, salt);
    let sub_bytes = user_sub.as_bytes_vec();
    blob.push((sub_bytes.len() % 256) as u8);
    append_bytes(&mut blob, &sub_bytes);
    proof {
        assert(blob@ =~= spec_seed_blob(salt@, encode_utf8(user_sub@)));
    }
    sha256(&blob)
}

/// The raw canister-signature key: the length-prefixed module identity
/// followed by the seed.
pub open spec fn spec_der_raw(canister_id: Seq<u8>, seed: Seq<u8>) -> Seq<u8> {
    seq![(canister_id.len() % 256) as u8] + canister_id + seed
}

/// The DER encoding of the canister-signature public key: an outer
/// sequence holding the algorithm identifier and the raw key as a bit
/// string.
pub open spec fn spec_der_encode(canister_id: Seq<u8>, seed: Seq<u8>) -> Seq<u8>
    recommends
        canister_id.len() <= 29,
        seed.len() == 32,
{
    let raw = spec_der_raw(canister_id, seed);
    seq![
        48u8,
        ((17 + raw.len()) % 256) as u8,
        48u8,
        12u8,
        6u8,
        10u8,
        43u8,
        6u8,
        1u8,
        4u8,
        1u8,
        131u8,
        184u8,
        67u8,
        1u8,
        2u8,
        3u8,
        ((raw.len() + 1) % 256) as u8,
        0u8,
    ] + raw
}

/// DER-encodes the public key material derived from the host module
/// identity and a seed.
pub fn der_encode_canister_sig_key(canister_id: &Vec<u8>, seed: &Vec<u8>) -> (r: Vec<u8>)
    requires
        canister_id@.len() <= 29,
        seed@.len() == 32,
    ensures
        r@ == spec_der_encode(canister_id@, seed@),
{
    let raw_len = 1 + canister_id.len() + seed.len();
    let mut out: Vec<u8> = vec![
        48u8,
        ((17 + raw_len) % 256) as u8,
        48u8,
        12u8,
        6u8,
        10u8,
        43u8,
        6u8,
        1u8,
        4u8,
        1u8,
        131u8,
        184u8,
        67u8,
        1u8,
        2u8,
        3u8,
        ((raw_len + 1) % 256) as u8,
        0u8,
    ];
    out.push((canister_id.len() % 256) as u8);
    append_bytes(&mut out, canister_id);
    append_bytes(&mut out, seed);
    proof {
        assert(out@ =~= spec_der_encode(canister_id@, seed@));
    }
    out
}

/// The user key a prepare call returns for this module identity and seed.
pub open spec fn spec_user_key(canister_id: Seq<u8>, seed: Seq<u8>) -> Seq<u8> {
    spec_der_encode(canister_id, seed)
}

/// The platform identity derived from a subject: the self-authenticating
/// principal of the DER-encoded key material.
pub open spec fn spec_principal_of_sub(v: StateView, sub: Seq<char>) -> Seq<u8>
    recommends
        v.salt is Some,
{
    self_auth_of(spec_user_key(v.canister_id, spec_calculate_seed(v.salt.unwrap(), sub)))
}

/// What preparing a delegation does to the state: the entry for (seed,
/// message hash) is added and the root digest republished.
pub open spec fn spec_prepare_delegation(
    v: StateView,
    sub: Seq<char>,
    session_key: Seq<u8>,
    expiration: u64,
) -> StateView
    recommends
        v.salt is Some,
{
    let seed = spec_calculate_seed(v.salt.unwrap(), sub);
    let sigs = spec_add(v.sigs, seed, spec_delegation_msg_hash(session_key, expiration));
    StateView { sigs, certified_data: spec_certified(sigs), ..v }
}

/// Issues a delegation: derives the subject's seed, inserts the pending
/// signature entry, and republishes the root digest before returning the
/// DER-encoded public key material.
pub fn prepare_delegation(
    state: &mut State,
    user_sub: &UserSub,
    session_key: SessionKey,
    expiration: Timestamp,
) -> (r: UserKey)
    requires
        old(state).wf(),
        old(state)@.salt is Some,
    ensures
        final(state)@ == spec_prepare_delegation(
            old(state)@,
            user_sub@,
            session_key@,
            expiration,
        ),
        final(state).wf(),
        final(state).certified_ok(),
        r@ == spec_user_key(old(state)@.canister_id, spec_calculate_seed(
            old(state)@.salt.unwrap(),
            user_sub@,
        )),
{
    let seed = match crate::state::salt(state) {
        Some(salt) => calculate_seed(salt, user_sub.as_str()),
        None => unreached(),
    };
    let msg_hash = delegation_signature_msg_hash(&session_key, expiration);
    state.sigs.add_signature(&seed, &msg_hash);
    update_root_hash(state);
    der_encode_canister_sig_key(&state.canister_id, &seed)
}

/// Recomputes the labeled root digest and hands it over for publication;
/// called after every mutation of the signature map, and before the
/// mutating operation returns.
pub fn update_root_hash(state: &mut State)
    requires
        old(state).wf(),
    ensures
        final(state)@ == (StateView {
            certified_data: spec_certified(old(state)@.sigs),
            ..old(state)@
        }),
        final(state).wf(),
        final(state).certified_ok(),
{
    let root = state.sigs.root_hash();
    state.certified_data = labeled_sig_hash(&root);
}

/// What fetching a delegation returns: a signed delegation exactly when
/// the entry is present, the "no such delegation" outcome otherwise.
pub open spec fn spec_get_delegation(
    v: StateView,
    sub: Seq<char>,
    session_key: Seq<u8>,
    expiration: u64,
) -> bool
    recommends
        v.salt is Some,
{
    contains_entry(
        v.sigs,
        spec_calculate_seed(v.salt.unwrap(), sub),
        spec_delegation_msg_hash(session_key, expiration),
    )
}

/// Looks the delegation up: re-derives the seed from the token's subject,
/// recomputes the message hash, and returns a proof of inclusion if and
/// only if the entry exists; a missing entry is the normal
/// `NoSuchDelegation` outcome, never an error.
pub fn get_delegation(
    state: &State,
    user_sub: &UserSub,
    session_key: SessionKey,
    expiration: Timestamp,
) -> (r: GetDelegationResponse)
    requires
        state.wf(),
        state@.salt is Some,
    ensures
        r matches GetDelegationResponse::SignedDelegation(sd) ==> {
            &&& spec_get_delegation(state@, user_sub@, session_key@, expiration)
            &&& sd.delegation.pubkey@ == session_key@
            &&& sd.delegation.expiration == expiration
            &&& sd.delegation.targets is None
            &&& crate::sig_map::spec_verify_signature(
                sd.signature@,
                spec_calculate_seed(state@.salt.unwrap(), user_sub@),
                spec_delegation_msg_hash(session_key@, expiration),
                spec_digest(state@.sigs),
            )
        },
        r is NoSuchDelegation <==> !spec_get_delegation(state@, user_sub@, session_key@, expiration),
{
    let seed = match crate::state::salt(state) {
        Some(salt) => calculate_seed(salt, user_sub.as_str()),
        None => unreached(),
    };
    let msg_hash = delegation_signature_msg_hash(&session_key, expiration);
    match state.sigs.get_signature(&seed, &msg_hash) {
        Some(witness) => {
            let signature = crate::sig_map::encode_witness(&witness);
            proof {
                crate::sig_map::lemma_witness_roundtrip(witness@);
            }
            GetDelegationResponse::SignedDelegation(
                SignedDelegation {
                    delegation: Delegation {
                        pubkey: session_key,
                        expiration,
                        targets: None,
                    },
                    signature,
                },
            )
        },
        None => GetDelegationResponse::NoSuchDelegation,
    }
}

/// The caller-facing platform identity of a subject: the
/// self-authenticating principal of its public key material.
pub fn get_principal(state: &State, user_sub: &UserSub) -> (r: Vec<u8>)
    requires
        state.wf(),
        state@.salt is Some,
    ensures
        r@ == spec_principal_of_sub(state@, user_sub@),
        r@.len() == 29,
{
    let seed = match crate::state::salt(state) {
        Some(salt) => calculate_seed(salt, user_sub.as_str()),
        None => unreached(),
    };
    let public_key = der_encode_canister_sig_key(&state.canister_id, &seed);
    self_authenticating(&public_key)
}

} // verus!
