//! The certified signature map: (seed, message-hash) entries, a single root
//! digest summarizing them all, and verifiable witnesses of inclusion.
//!
//! Each entry is hashed as a label tree node — the seed labels a subtree
//! whose single message-hash label holds an empty leaf — and the root digest
//! folds the entry hashes into a chain of forks. A witness for one entry
//! holds the entry hashes before it and the digest of what follows it, so
//! that anybody holding the root digest can re-fold the chain and check
//! inclusion without trusting this process.

use vstd::prelude::*;

use crate::crypto::{
    fork_hash, fork_hash_of, labeled_hash, labeled_hash_of, leaf_hash, leaf_hash_of,
};
use crate::utils::bytes_eq;

verus! {

/// One pending signature: a seed and the domain-separated hash of the
/// message the signature is for.
#[derive(Clone, Debug, PartialEq, Eq)]
pub struct SigEntry {
    pub seed: Vec<u8>,
    pub msg_hash: Vec<u8>,
}

/// Specification-level image of a [`SigEntry`].
pub struct SigEntryView {
    pub seed: Seq<u8>,
    pub msg_hash: Seq<u8>,
}

impl View for SigEntry {
    type V = SigEntryView;

    open spec fn view(&self) -> SigEntryView {
        SigEntryView { seed: self.seed@, msg_hash: self.msg_hash@ }
    }
}

impl DeepView for SigEntry {
    type V = SigEntryView;

    open spec fn deep_view(&self) -> SigEntryView {
        self@
    }
}

/// Both hashes of an entry are 32 bytes.
pub open spec fn entry_wf(e: SigEntryView) -> bool {
    e.seed.len() == 32 && e.msg_hash.len() == 32
}

/// The hash of one entry: the seed label over the message-hash label over
/// an empty leaf.
pub open spec fn spec_entry_hash(e: SigEntryView) -> Seq<u8> {
    labeled_hash_of(e.seed, labeled_hash_of(e.msg_hash, leaf_hash_of(Seq::empty())))
}

/// The digest of a map with no entries.
pub open spec fn empty_digest() -> Seq<u8> {
    Seq::new(32, |i: int| 0u8)
}

/// The root digest of a sequence of entries: a right fold of forks over the
/// entry hashes.
pub open spec fn spec_digest(s: Seq<SigEntryView>) -> Seq<u8>
    decreases s.len(),
{
    if s.len() == 0 {
        empty_digest()
    } else {
        fork_hash_of(spec_entry_hash(s[0]), spec_digest(s.drop_first()))
    }
}

/// Every entry of the sequence holds 32-byte hashes.
pub open spec fn sigs_wf(s: Seq<SigEntryView>) -> bool {
    forall|i: int| 0 <= i < s.len() ==> entry_wf(s[i])
}

/// Whether an entry with this seed and message hash is present.
pub open spec fn contains_entry(s: Seq<SigEntryView>, seed: Seq<u8>, msg_hash: Seq<u8>) -> bool {
    exists|i: int| 0 <= i < s.len() && s[i].seed == seed && s[i].msg_hash == msg_hash
}

/// What adding an entry yields: unchanged if present, appended otherwise.
pub open spec fn spec_add(s: Seq<SigEntryView>, seed: Seq<u8>, msg_hash: Seq<u8>) -> Seq<
    SigEntryView,
> {
    if contains_entry(s, seed, msg_hash) {
        s
    } else {
        s.push(SigEntryView { seed, msg_hash })
    }
}

/// The entry hashes of a sequence of entries, in order.
pub open spec fn entry_hashes(s: Seq<SigEntryView>) -> Seq<Seq<u8>> {
    s.map_values(|e: SigEntryView| spec_entry_hash(e))
}

/// Folds a chain of forks over `hashes`, ending in `acc`.
pub open spec fn spec_rebuild(hashes: Seq<Seq<u8>>, acc: Seq<u8>) -> Seq<u8>
    decreases hashes.len(),
{
    if hashes.len() == 0 {
        acc
    } else {
        fork_hash_of(hashes[0], spec_rebuild(hashes.drop_first(), acc))
    }
}

/// A witness of inclusion for one entry: the hashes of the entries before
/// it and the digest of the entries after it.
#[derive(Clone, Debug, PartialEq, Eq)]
pub struct SigWitness {
    pub prefix: Vec<Vec<u8>>,
    pub suffix: Vec<u8>,
}

/// Specification-level image of a [`SigWitness`].
pub struct SigWitnessView {
    pub prefix: Seq<Seq<u8>>,
    pub suffix: Seq<u8>,
}

impl View for SigWitness {
    type V = SigWitnessView;

    open spec fn view(&self) -> SigWitnessView {
        SigWitnessView { prefix: self.prefix.deep_view(), suffix: self.suffix@ }
    }
}

/// All hashes of a witness are 32 bytes.
pub open spec fn witness_wf(w: SigWitnessView) -> bool {
    w.suffix.len() == 32 && (forall|i: int| 0 <= i < w.prefix.len() ==> w.prefix[i].len() == 32)
}

/// The root a witness rebuilds for an entry with this seed and message
/// hash.
pub open spec fn witness_root(w: SigWitnessView, seed: Seq<u8>, msg_hash: Seq<u8>) -> Seq<u8> {
    spec_rebuild(w.prefix, fork_hash_of(spec_entry_hash(SigEntryView { seed, msg_hash }), w.suffix))
}

/// Splitting the digest at position `k`: the digest equals the fold of the
/// first `k` entry hashes over the fork of entry `k` with the digest of the
/// rest.
proof fn lemma_split_digest(s: Seq<SigEntryView>, k: int)
    requires
        0 <= k < s.len(),
    ensures
        spec_digest(s) == spec_rebuild(
            entry_hashes(s.take(k)),
            fork_hash_of(spec_entry_hash(s[k]), spec_digest(s.skip(k + 1))),
        ),
    decreases k,
{
    if k == 0 {
        assert(entry_hashes(s.take(0)) =~= Seq::<Seq<u8>>::empty());
        assert(s.skip(1) =~= s.drop_first());
    } else {
        let rest = s.drop_first();
        lemma_split_digest(rest, k - 1);
        let p = entry_hashes(s.take(k));
        let acc = fork_hash_of(spec_entry_hash(s[k]), spec_digest(s.skip(k + 1)));
        assert(rest[k - 1] == s[k]);
        assert(rest.skip(k) =~= s.skip(k + 1));
        assert(p.len() == k);
        assert(p[0] == spec_entry_hash(s[0]));
        assert(p.drop_first() =~= entry_hashes(rest.take(k - 1)));
        assert(spec_rebuild(p, acc) == fork_hash_of(p[0], spec_rebuild(p.drop_first(), acc)));
    }
}

/// The hash of the entry with this seed and message hash.
fn entry_hash_parts(seed: &Vec<u8>, msg_hash: &Vec<u8>) -> (r: Vec<u8>)
    requires
        seed@.len() == 32,
        msg_hash@.len() == 32,
    ensures
        r@ == spec_entry_hash(SigEntryView { seed: seed@, msg_hash: msg_hash@ }),
        r@.len() == 32,
{
    let empty: Vec<u8> = Vec::new();
    proof {
        assert(empty@ =~= Seq::<u8>::empty());
    }
    let leaf = leaf_hash(&empty);
    let inner = labeled_hash(msg_hash, &leaf);
    labeled_hash(seed, &inner)
}

/// The in-memory certified signature map.
#[derive(Clone, Debug, PartialEq, Eq)]
pub struct SignatureMap {
    pub entries: Vec<SigEntry>,
}

impl View for SignatureMap {
    type V = Seq<SigEntryView>;

    open spec fn view(&self) -> Seq<SigEntryView> {
        self.entries.deep_view()
    }
}

impl Default for SignatureMap {
    /// An empty map.
    fn default() -> (r: Self)
        ensures
            r@ =~= Seq::<SigEntryView>::empty(),
    {
        SignatureMap { entries: Vec::new() }
    }
}

impl SignatureMap {
    /// Every entry holds 32-byte hashes.
    pub open spec fn wf(&self) -> bool {
        sigs_wf(self@)
    }

    /// An empty map.
    pub fn new() -> (r: Self)
        ensures
            r@ =~= Seq::<SigEntryView>::empty(),
            r.wf(),
    {
        SignatureMap { entries: Vec::new() }
    }

    /// The position of the first entry with this seed and message hash.
    fn find_index(&self, seed: &Vec<u8>, msg_hash: &Vec<u8>) -> (r: Option<usize>)
        ensures
            match r {
                Some(i) => i < self@.len() && self@[i as int].seed == seed@
                    && self@[i as int].msg_hash == msg_hash@,
                None => !contains_entry(self@, seed@, msg_hash@),
            },
    {
        let n = self.entries.len();
        for i in 0..n
            invariant
                n == self@.len(),

                forall|j: int|
                    0 <= j < i ==> !(self@[j].seed == seed@ && self@[j].msg_hash == msg_hash@),
        {
            if bytes_eq(&self.entries[i].seed, seed) && bytes_eq(&self.entries[i].msg_hash, msg_hash) {
                return Some(i);
            }
        }
        None
    }

    /// Inserts a pending signature entry; adding an entry that is already
    /// present leaves the map unchanged. The caller must republish the root
    /// digest afterwards.
    pub fn add_signature(&mut self, seed: &Vec<u8>, msg_hash: &Vec<u8>)
        requires
            old(self).wf(),
            seed@.len() == 32,
            msg_hash@.len() == 32,
        ensures
            final(self)@ == spec_add(old(self)@, seed@, msg_hash@),
            final(self).wf(),
    {
        match self.find_index(seed, msg_hash) {
            Some(_) => {
                proof {
                    assert(contains_entry(self@, seed@, msg_hash@));
                }
            },
            None => {
                let entry = SigEntry { seed: seed.clone(), msg_hash: msg_hash.clone() };
                self.entries.push(entry);
                proof {
                    assert(self@ =~= old(self)@.push(
                        SigEntryView { seed: seed@, msg_hash: msg_hash@ },
                    ));
                }
            },
        }
    }

    /// The hash of one entry.
    fn entry_hash(entry: &SigEntry) -> (r: Vec<u8>)
        requires
            entry_wf(entry@),
        ensures
            r@ == spec_entry_hash(entry@),
            r@.len() == 32,
    {
        entry_hash_parts(&entry.seed, &entry.msg_hash)
    }

    /// The digest of the entries from position `from` on.
    fn digest_from(&self, from: usize) -> (r: Vec<u8>)
        requires
            self.wf(),
            from <= self@.len(),
        ensures
            r@ == spec_digest(self@.skip(from as int)),
            r@.len() == 32,
    {
        let n = self.entries.len();
        proof {
            assert(self@.len() == self.entries@.len());
        }
        let mut acc: Vec<u8> = vec![0u8; 32];
        proof {
            assert(acc@ =~= empty_digest());
            assert(self@.skip(n as int) =~= Seq::<SigEntryView>::empty());
        }
        let mut i = n;
        while i > from
            invariant
                self.wf(),
                from <= i <= n,
                n == self@.len(),
                n == self.entries@.len(),
                acc@ == spec_digest(self@.skip(i as int)),
                acc@.len() == 32,
            decreases i,
        {
            i = i - 1;
            proof {
                assert(self@[i as int] == self.entries@[i as int]@);
            }
            let eh = Self::entry_hash(&self.entries[i]);
            acc = fork_hash(&eh, &acc);
            proof {
                assert(self@.skip(i as int)[0] == self@[i as int]);
                assert(self@.skip(i as int).drop_first() =~= self@.skip(i + 1));
            }
        }
        acc
    }

    /// The root digest summarizing all current entries.
    pub fn root_hash(&self) -> (r: Vec<u8>)
        requires
            self.wf(),
        ensures
            r@ == spec_digest(self@),
            r@.len() == 32,
    {
        let r = self.digest_from(0);
        proof {
            assert(self@.skip(0) =~= self@);
        }
        r
    }

    /// A witness of inclusion for the entry with this seed and message
    /// hash, if one is present; a missing entry is a normal outcome, not an
    /// error.
    pub fn get_signature(&self, seed: &Vec<u8>, msg_hash: &Vec<u8>) -> (r: Option<SigWitness>)
        requires
            self.wf(),
        ensures
            r is Some <==> contains_entry(self@, seed@, msg_hash@),
            r matches Some(w) ==> witness_wf(w@) && witness_root(w@, seed@, msg_hash@)
                == spec_digest(self@),
    {
        let k = match self.find_index(seed, msg_hash) {
            Some(k) => k,
            None => {
                return None;
            },
        };
        let n = self.entries.len();
        let mut prefix: Vec<Vec<u8>> = Vec::new();
        proof {
            assert(self@.len() == self.entries@.len());
            assert(prefix.deep_view() =~~= entry_hashes(self@.take(0)));
        }
        for i in 0..k
            invariant
                self.wf(),
                k < n,
                n == self@.len(),
                self@.len() == self.entries@.len(),
                prefix@.len() == i as int,
                prefix.deep_view() == entry_hashes(self@.take(i as int)),
                forall|j: int| 0 <= j < prefix@.len() ==> prefix.deep_view()[j].len() == 32,
        {
            proof {
                assert(self@[i as int] == self.entries@[i as int]@);
            }
            let eh = Self::entry_hash(&self.entries[i]);
            let ghost ehv = eh@;
            let ghost prev = prefix@;
            let ghost pred = prefix.deep_view();
            prefix.push(eh);
            proof {
                assert(prefix@.len() == i + 1);
                assert forall|j: int| 0 <= j < i as int implies #[trigger] prefix.deep_view()[j]
                    == pred[j] by {
                    assert(prefix@[j] == prev[j]);
                }
                assert(prefix@[i as int]@ == ehv);
                assert(prefix.deep_view()[i as int] =~= ehv);
                assert(ehv == spec_entry_hash(self@[i as int]));
                assert(prefix.deep_view() =~= entry_hashes(self@.take(i + 1)));
            }
        }
        let suffix = self.digest_from(k + 1);
        let w = SigWitness { prefix, suffix };
        proof {
            lemma_split_digest(self@, k as int);
            assert(SigEntryView { seed: seed@, msg_hash: msg_hash@ } == self@[k as int]);
        }
        Some(w)
    }
}

/// The concatenation of a sequence of hashes.
pub open spec fn concat_hashes(p: Seq<Seq<u8>>) -> Seq<u8>
    decreases p.len(),
{
    if p.len() == 0 {
        Seq::empty()
    } else {
        p[0] + concat_hashes(p.drop_first())
    }
}

proof fn lemma_concat_len(p: Seq<Seq<u8>>)
    requires
        forall|i: int| 0 <= i < p.len() ==> p[i].len() == 32,
    ensures
        concat_hashes(p).len() == 32 * p.len(),
    decreases p.len(),
{
    if p.len() > 0 {
        lemma_concat_len(p.drop_first());
    }
}

proof fn lemma_concat_push(p: Seq<Seq<u8>>, x: Seq<u8>)
    ensures
        concat_hashes(p.push(x)) == concat_hashes(p) + x,
    decreases p.len(),
{
    if p.len() == 0 {
        reveal_with_fuel(concat_hashes, 2);
        assert(p.push(x)[0] == x);
        assert(p.push(x).drop_first() =~= Seq::<Seq<u8>>::empty());
        assert(concat_hashes(p.push(x)) =~= concat_hashes(p) + x);
    } else {
        lemma_concat_push(p.drop_first(), x);
        assert(p.push(x).drop_first() =~= p.drop_first().push(x));
        assert(p.push(x)[0] == p[0]);
        assert(concat_hashes(p.push(x)) == p[0] + (concat_hashes(p.drop_first()) + x));
        assert(p[0] + (concat_hashes(p.drop_first()) + x) =~= (p[0] + concat_hashes(
            p.drop_first(),
        )) + x);
    }
}

proof fn lemma_concat_chunk(p: Seq<Seq<u8>>, i: int)
    requires
        forall|j: int| 0 <= j < p.len() ==> p[j].len() == 32,
        0 <= i < p.len(),
    ensures
        concat_hashes(p).subrange(32 * i, 32 * i + 32) == p[i],
    decreases i,
{
    lemma_concat_len(p);
    lemma_concat_len(p.drop_first());
    if i == 0 {
        assert(concat_hashes(p).subrange(0, 32) =~= p[0]);
    } else {
        lemma_concat_chunk(p.drop_first(), i - 1);
        assert(concat_hashes(p).subrange(32 * i, 32 * i + 32) =~= concat_hashes(
            p.drop_first(),
        ).subrange(32 * (i - 1), 32 * (i - 1) + 32));
    }
}

/// The byte encoding of a witness: the prefix hashes in order, then the
/// suffix digest; every hash is 32 bytes, so the layout needs no counts.
pub open spec fn spec_encode_witness(w: SigWitnessView) -> Seq<u8> {
    concat_hashes(w.prefix) + w.suffix
}

/// What decoding signature bytes yields: the witness whose encoding they
/// are, unique when it exists.
pub open spec fn spec_decode_witness(bytes: Seq<u8>) -> Option<SigWitnessView> {
    if bytes.len() < 32 || bytes.len() % 32 != 0 {
        None
    } else {
        let k = bytes.len() / 32 - 1;
        Some(
            SigWitnessView {
                prefix: Seq::new(k as nat, |i: int| bytes.subrange(32 * i, 32 * i + 32)),
                suffix: bytes.subrange(bytes.len() - 32, bytes.len() as int),
            },
        )
    }
}

/// Decoding inverts encoding on well-formed witnesses.
pub proof fn lemma_witness_roundtrip(w: SigWitnessView)
    requires
        witness_wf(w),
    ensures
        spec_decode_witness(spec_encode_witness(w)) == Some(w),
{
    let bytes = spec_encode_witness(w);
    let k = w.prefix.len() as int;
    lemma_concat_len(w.prefix);
    assert(bytes.len() == 32 * k + 32);
    assert(bytes.len() == 32 * (k + 1));
    assert((32 * (k + 1)) % 32 == 0 && (32 * (k + 1)) / 32 == k + 1) by (nonlinear_arith);
    let d = spec_decode_witness(bytes).unwrap();
    assert forall|i: int| 0 <= i < k implies d.prefix[i] == w.prefix[i] by {
        lemma_concat_chunk(w.prefix, i);
        assert(32 * i + 32 <= 32 * k) by (nonlinear_arith)
            requires
                i + 1 <= k,
        ;
        assert(bytes.subrange(32 * i, 32 * i + 32) =~= concat_hashes(w.prefix).subrange(
            32 * i,
            32 * i + 32,
        ));
    }
    assert(d.prefix =~= w.prefix);
    assert(d.suffix =~= w.suffix);
}

/// Serializes a witness into signature bytes.
pub fn encode_witness(w: &SigWitness) -> (r: Vec<u8>)
    requires
        witness_wf(w@),
    ensures
        r@ == spec_encode_witness(w@),
{
    let mut out: Vec<u8> = Vec::new();
    let n = w.prefix.len();
    proof {
        assert(out@ =~= concat_hashes(w@.prefix.take(0)));
    }
    for i in 0..n
        invariant
            n == w.prefix@.len(),
            witness_wf(w@),
            out@ == concat_hashes(w@.prefix.take(i as int)),
    {
        crate::utils::append_bytes(&mut out, &w.prefix[i]);
        proof {
            assert(w@.prefix[i as int] =~= w.prefix@[i as int]@);
            lemma_concat_push(w@.prefix.take(i as int), w@.prefix[i as int]);
            assert(w@.prefix.take(i + 1) =~= w@.prefix.take(i as int).push(w@.prefix[i as int]));
        }
    }
    crate::utils::append_bytes(&mut out, &w.suffix);
    proof {
        assert(w@.prefix.take(n as int) =~= w@.prefix);
    }
    out
}

/// Parses signature bytes back into a witness; rejects any length that no
/// witness encodes to.
pub fn decode_witness(bytes: &Vec<u8>) -> (r: Option<SigWitness>)
    ensures
        match r {
            Some(w) => spec_decode_witness(bytes@) == Some(w@) && witness_wf(w@),
            None => spec_decode_witness(bytes@) is None,
        },
{
    let len = bytes.len();
    if len < 32 || len % 32 != 0 {
        return None;
    }
    let k = len / 32 - 1;
    proof {
        assert(32 * ((len as int) / 32) == len as int);
        assert(32 * (k as int) == len - 32) by (nonlinear_arith)
            requires
                k as int == (len as int) / 32 - 1,
                32 * ((len as int) / 32) == len as int,
        ;
    }
    let mut prefix: Vec<Vec<u8>> = Vec::new();
    let ghost target = spec_decode_witness(bytes@).unwrap().prefix;
    for i in 0..k
        invariant
            k < len,
            32 * (k as int) == len as int - 32,
            len == bytes@.len(),
            target == spec_decode_witness(bytes@).unwrap().prefix,
            target.len() == k as int,
            forall|j: int| 0 <= j < target.len() ==> #[trigger] target[j] == bytes@.subrange(
                32 * j,
                32 * j + 32,
            ),
            prefix@.len() == i as int,
            prefix.deep_view() =~= target.take(i as int),
            forall|j: int| 0 <= j < prefix@.len() ==> prefix.deep_view()[j].len() == 32,
    {
        proof {
            assert(32 * (i as int) + 32 <= 32 * (k as int)) by (nonlinear_arith)
                requires
                    i as int + 1 <= k as int,
            ;
        }
        let lo = 32 * i;
        let hi = 32 * i + 32;
        let chunk = crate::utils::vec_subrange(bytes, lo, hi);
        let ghost chunkv = chunk@;
        let ghost prev = prefix@;
        prefix.push(chunk);
        proof {
            assert forall|j: int| 0 <= j < i as int implies #[trigger] prefix.deep_view()[j]
                == target.take(i as int)[j] by {
                assert(prefix@[j] == prev[j]);
            }
            assert(prefix@[i as int]@ == chunkv);
            assert(prefix.deep_view()[i as int] =~= chunkv);
            assert(prefix.deep_view() =~= target.take(i + 1));
        }
    }
    let suffix = crate::utils::vec_subrange(bytes, len - 32, len);
    let w = SigWitness { prefix, suffix };
    proof {
        assert(target.take(k as int) =~= target);
        assert(w@.prefix =~= target);
        assert(w@.suffix =~= spec_decode_witness(bytes@).unwrap().suffix);
    }
    Some(w)
}

/// Re-folds a witness for the entry with this seed and message hash into
/// the root digest it attests to.
pub fn rebuild_root(w: &SigWitness, seed: &Vec<u8>, msg_hash: &Vec<u8>) -> (r: Vec<u8>)
    requires
        witness_wf(w@),
        seed@.len() == 32,
        msg_hash@.len() == 32,
    ensures
        r@ == witness_root(w@, seed@, msg_hash@),
{
    let eh = entry_hash_parts(seed, msg_hash);
    let mut acc = fork_hash(&eh, &w.suffix);
    let n = w.prefix.len();
    proof {
        assert(w@.prefix.skip(n as int) =~= Seq::<Seq<u8>>::empty());
    }
    let mut i = n;
    while i > 0
        invariant
            i <= n,
            n == w.prefix@.len(),
            witness_wf(w@),
            seed@.len() == 32,
            msg_hash@.len() == 32,
            acc@.len() == 32,
            acc@ == spec_rebuild(
                w@.prefix.skip(i as int),
                fork_hash_of(
                    spec_entry_hash(SigEntryView { seed: seed@, msg_hash: msg_hash@ }),
                    w@.suffix,
                ),
            ),
        decreases i,
    {
        i = i - 1;
        proof {
            assert(w@.prefix[i as int] =~= w.prefix@[i as int]@);
            assert(w@.prefix.skip(i as int)[0] == w@.prefix[i as int]);
            assert(w@.prefix.skip(i as int).drop_first() =~= w@.prefix.skip(i + 1));
        }
        acc = fork_hash(&w.prefix[i], &acc);
    }
    proof {
        assert(w@.prefix.skip(0) =~= w@.prefix);
    }
    acc
}

/// Whether `signature` encodes a witness that attests, for the entry with
/// this seed and message hash, to exactly this root digest.
pub open spec fn spec_verify_signature(
    signature: Seq<u8>,
    seed: Seq<u8>,
    msg_hash: Seq<u8>,
    root: Seq<u8>,
) -> bool {
    match spec_decode_witness(signature) {
        Some(w) => witness_root(w, seed, msg_hash) == root,
        None => false,
    }
}

/// Checks signature bytes against a root digest: decodes the witness and
/// re-folds it for the entry with this seed and message hash.
pub fn verify_signature(signature: &Vec<u8>, seed: &Vec<u8>, msg_hash: &Vec<u8>, root: &Vec<u8>) -> (r:
    bool)
    requires
        seed@.len() == 32,
        msg_hash@.len() == 32,
    ensures
        r == spec_verify_signature(signature@, seed@, msg_hash@, root@),
{
    let w = match decode_witness(signature) {
        Some(w) => w,
        None => {
            return false;
        },
    };
    let rebuilt = rebuild_root(&w, seed, msg_hash);
    crate::utils::bytes_eq(&rebuilt, root)
}

} // verus!
