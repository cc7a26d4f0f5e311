//! The laws the engine guarantees, stated and proved over the
//! specification-level transitions that the executable operations are
//! verified against.

use vstd::prelude::*;

use crate::delegation::{
    spec_calculate_seed, spec_delegation_msg_hash, spec_get_delegation, spec_prepare_delegation,
    spec_principal_of_sub, spec_seed_blob,
};
use crate::sig_map::{contains_entry, spec_add, SigEntryView};
use crate::state::{spec_install_salt, spec_set_jwks, StateView};
use crate::types::JwksView;
use crate::api::{spec_check_authorization, spec_get_response, spec_prepare, AuthError};
use crate::utils::NANOS_IN_SECONDS;
use vstd::utf8::{decode_utf8, encode_utf8, encode_utf8_decode_utf8};

verus! {

/// Seed derivation is deterministic — `spec_calculate_seed` is a function
/// of (salt, subject) — and injective in the subject up to hash collision:
/// under one salt, two subjects whose hashed seed blobs coincide are the
/// same subject.
pub proof fn lemma_seed_preimage_injective(salt: Seq<u8>, sub1: Seq<char>, sub2: Seq<char>)
    requires
        spec_seed_blob(salt, encode_utf8(sub1)) == spec_seed_blob(salt, encode_utf8(sub2)),
    ensures
        sub1 == sub2,
{
    broadcast use encode_utf8_decode_utf8;

    let b1 = encode_utf8(sub1);
    let b2 = encode_utf8(sub2);
    let blob1 = spec_seed_blob(salt, b1);
    let blob2 = spec_seed_blob(salt, b2);
    assert(blob1.len() == 2 + salt.len() + b1.len());
    assert(blob2.len() == 2 + salt.len() + b2.len());
    assert(b1.len() == b2.len());
    assert forall|j: int| 0 <= j < b1.len() implies b1[j] == b2[j] by {
        assert(blob1[2 + salt.len() + j] == b1[j]);
        assert(blob2[2 + salt.len() + j] == b2[j]);
    }
    assert(b1 =~= b2);
    assert(decode_utf8(b1) == sub1);
    assert(decode_utf8(b2) == sub2);
}

/// Re-preparing the identical (subject, session key, expiry) triple is
/// idempotent at the engine level: the second prepare leaves the state
/// exactly as the first left it.
pub proof fn lemma_prepare_delegation_idempotent(
    v: StateView,
    sub: Seq<char>,
    sk: Seq<u8>,
    exp: u64,
)
    requires
        v.salt is Some,
    ensures
        spec_prepare_delegation(spec_prepare_delegation(v, sub, sk, exp), sub, sk, exp)
            == spec_prepare_delegation(v, sub, sk, exp),
{
    let seed = spec_calculate_seed(v.salt.unwrap(), sub);
    let h = spec_delegation_msg_hash(sk, exp);
    let s1 = spec_add(v.sigs, seed, h);
    if !contains_entry(v.sigs, seed, h) {
        assert(s1[v.sigs.len() as int] == SigEntryView { seed, msg_hash: h });
    }
    assert(contains_entry(s1, seed, h));
}

/// A prepared delegation can be fetched: after a prepare for (subject,
/// session key, expiry), the fetch for the same triple finds the entry —
/// and the executable fetch then returns a signed delegation whose
/// witness re-folds to the root digest the prepare published.
pub proof fn lemma_prepare_then_fetch(v: StateView, sub: Seq<char>, sk: Seq<u8>, exp: u64)
    requires
        v.salt is Some,
    ensures
        spec_get_delegation(spec_prepare_delegation(v, sub, sk, exp), sub, sk, exp),
        spec_prepare_delegation(v, sub, sk, exp).certified_data == crate::state::spec_certified(
            spec_prepare_delegation(v, sub, sk, exp).sigs,
        ),
{
    let seed = spec_calculate_seed(v.salt.unwrap(), sub);
    let h = spec_delegation_msg_hash(sk, exp);
    let s1 = spec_add(v.sigs, seed, h);
    if !contains_entry(v.sigs, seed, h) {
        assert(s1[v.sigs.len() as int] == SigEntryView { seed, msg_hash: h });
    }
    assert(contains_entry(s1, seed, h));
}

/// Before any prepare — while the signature map is empty — every fetch
/// reports "no such delegation", not an error.
pub proof fn lemma_fetch_before_prepare(v: StateView, sub: Seq<char>, sk: Seq<u8>, exp: u64)
    requires
        v.salt is Some,
        v.sigs.len() == 0,
    ensures
        !spec_get_delegation(v, sub, sk, exp),
{
}

/// Every rejection of a prepare call — a caller/token mismatch among them
/// — leaves the state untouched: no seed is recorded and no map entry is
/// added.
pub proof fn lemma_rejected_prepare_no_side_effects(
    v: StateView,
    caller: Seq<u8>,
    jwt: Seq<char>,
    now_ns: u64,
)
    ensures
        spec_prepare(v, caller, jwt, now_ns).1 is Err ==> spec_prepare(v, caller, jwt, now_ns).0
            == v,
{
}

/// The key-set bootstrap succeeds exactly once: it succeeds on a state
/// without a key set, and after that any further bootstrap — whatever key
/// set it carries — is rejected and changes nothing. The refresh path
/// carries no such guard and stays usable.
pub proof fn lemma_set_jwks_once(v: StateView, j1: JwksView, j2: JwksView)
    requires
        v.jwks is None,
    ensures
        ({
            let (v1, r1) = spec_set_jwks(v, j1);
            let (v2, r2) = spec_set_jwks(v1, j2);
            &&& r1 is Ok
            &&& v1.jwks == Some(j1)
            &&& r2 is Err
            &&& v2 == v1
        }),
{
}

/// Callers racing through the one-time salt initialization all observe
/// the identical salt: the first successful installation fixes it, and a
/// later installation — for instance by a caller that also saw the salt
/// uninitialized before suspending — returns without changing it.
pub proof fn lemma_salt_install_race(v: StateView, b1: Seq<u8>, b2: Seq<u8>)
    requires
        v.salt is None,
        b1.len() == 32,
    ensures
        ({
            let (v1, r1) = spec_install_salt(v, b1);
            let (v2, r2) = spec_install_salt(v1, b2);
            &&& r1 is Ok
            &&& v1.salt == Some(b1)
            &&& r2 is Ok
            &&& v2 == v1
            &&& v2.salt == Some(b1)
        }),
{
}

/// A delegation prepared through the caller-facing operation can be
/// fetched through it: after a successful prepare, a fetch with the same
/// token and the returned expiry reports the signed delegation.
pub proof fn lemma_prepare_then_fetch_api(
    v: StateView,
    caller: Seq<u8>,
    jwt: Seq<char>,
    now_ns: u64,
)
    ensures
        ({
            let (v1, r1) = spec_prepare(v, caller, jwt, now_ns);
            r1 matches Ok(p) ==> spec_get_response(v1, caller, jwt, p.1, now_ns) == Ok::<
                bool,
                AuthError,
            >(true)
        }),
{
    let (v1, r1) = spec_prepare(v, caller, jwt, now_ns);
    if r1 is Ok {
        let now_s = now_ns / NANOS_IN_SECONDS;
        let auth = spec_check_authorization(v, caller, jwt, now_s);
        assert(v1.jwks == v.jwks);
        assert(v1.config == v.config);
        assert(spec_check_authorization(v1, caller, jwt, now_s) == auth);
        let (token, sk) = auth.unwrap();
        let exp = (token.claims.exp * NANOS_IN_SECONDS) as u64;
        let seed = spec_calculate_seed(v.salt.unwrap(), token.claims.sub);
        let h = spec_delegation_msg_hash(sk, exp);
        if !contains_entry(v.sigs, seed, h) {
            assert(spec_add(v.sigs, seed, h)[v.sigs.len() as int] == SigEntryView {
                seed,
                msg_hash: h,
            });
        }
        assert(contains_entry(v1.sigs, seed, h));
        assert(v1.salt == v.salt);
    }
}

/// Preparing twice with the same token at the same time yields the same
/// response — the same public key material — and the same final state.
pub proof fn lemma_prepare_idempotent(v: StateView, caller: Seq<u8>, jwt: Seq<char>, now_ns: u64)
    ensures
        ({
            let (v1, r1) = spec_prepare(v, caller, jwt, now_ns);
            let (v2, r2) = spec_prepare(v1, caller, jwt, now_ns);
            r1 is Ok ==> r2 == r1 && v2 == v1
        }),
{
    let (v1, r1) = spec_prepare(v, caller, jwt, now_ns);
    if r1 is Ok {
        let now_s = now_ns / crate::utils::NANOS_IN_SECONDS;
        let auth = crate::api::spec_check_authorization(v, caller, jwt, now_s);
        assert(v1.jwks == v.jwks);
        assert(v1.config == v.config);
        assert(crate::api::spec_check_authorization(v1, caller, jwt, now_s) == auth);
        let (token, sk) = auth.unwrap();
        let sub = token.claims.sub;
        let exp_ns = (token.claims.exp * crate::utils::NANOS_IN_SECONDS) as u64;
        lemma_prepare_delegation_idempotent(v, sub, sk, exp_ns);
        let p = spec_principal_of_sub(v, sub);
        assert(spec_principal_of_sub(v1, sub) == p);
        let w1 = spec_prepare_delegation(v, sub, sk, exp_ns);
        let w2 = spec_prepare_delegation(v1, sub, sk, exp_ns);
        assert(w2.users == v1.users);
        assert(v1.users.insert(p, sub) =~= v1.users);
        assert(spec_prepare(v1, caller, jwt, now_ns).0 == v1);
    }
}

} // verus!
