//! The identity registry: a durable mapping from a caller's fixed-size
//! identity encoding to the provider subject it was registered for.

use vstd::prelude::*;

use crate::utils::bytes_eq;

verus! {

/// The registry's records, in insertion order; a later record for the same
/// key supersedes an earlier one.
#[derive(Clone, Debug, PartialEq, Eq)]
pub struct UserRegistry {
    pub entries: Vec<(Vec<u8>, String)>,
}

/// The records as a sequence of (key, subject) pairs.
pub open spec fn registry_entries(entries: Seq<(Vec<u8>, String)>) -> Seq<(Seq<u8>, Seq<char>)> {
    Seq::new(entries.len(), |i: int| (entries[i].0@, entries[i].1@))
}

/// The map a record sequence denotes: each key maps to the subject of its
/// latest record.
pub open spec fn registry_map(s: Seq<(Seq<u8>, Seq<char>)>) -> Map<Seq<u8>, Seq<char>>
    decreases s.len(),
{
    if s.len() == 0 {
        Map::empty()
    } else {
        registry_map(s.drop_last()).insert(s.last().0, s.last().1)
    }
}

impl View for UserRegistry {
    type V = Map<Seq<u8>, Seq<char>>;

    open spec fn view(&self) -> Map<Seq<u8>, Seq<char>> {
        registry_map(registry_entries(self.entries@))
    }
}

proof fn lemma_registry_found(s: Seq<(Seq<u8>, Seq<char>)>, k: Seq<u8>, i: int)
    requires
        0 <= i < s.len(),
        s[i].0 == k,
        forall|j: int| i < j < s.len() ==> s[j].0 != k,
    ensures
        registry_map(s).contains_key(k),
        registry_map(s)[k] == s[i].1,
    decreases s.len(),
{
    if i < s.len() - 1 {
        lemma_registry_found(s.drop_last(), k, i);
    }
}

proof fn lemma_registry_absent(s: Seq<(Seq<u8>, Seq<char>)>, k: Seq<u8>)
    requires
        forall|j: int| 0 <= j < s.len() ==> s[j].0 != k,
    ensures
        !registry_map(s).contains_key(k),
    decreases s.len(),
{
    if s.len() > 0 {
        lemma_registry_absent(s.drop_last(), k);
    }
}

impl UserRegistry {
    /// An empty registry.
    pub fn new() -> (r: Self)
        ensures
            r@ == Map::<Seq<u8>, Seq<char>>::empty(),
    {
        let r = UserRegistry { entries: Vec::new() };
        proof {
            assert(registry_entries(r.entries@).len() == 0);
        }
        r
    }

    /// Records that the caller identity `key` belongs to `user_sub`;
    /// recording the same pair again is harmless, and a new subject for the
    /// same key supersedes the old record.
    pub fn insert(&mut self, key: Vec<u8>, user_sub: String)
        ensures
            final(self)@ == old(self)@.insert(key@, user_sub@),
    {
        let ghost kv = key@;
        let ghost sv = user_sub@;
        let ghost prev = registry_entries(self.entries@);
        self.entries.push((key, user_sub));
        proof {
            let cur = registry_entries(self.entries@);
            assert(cur.drop_last() =~= prev);
            assert(cur.last() == (kv, sv));
        }
    }

    /// The subject recorded for a caller identity, if any.
    pub fn get(&self, key: &Vec<u8>) -> (r: Option<String>)
        ensures
            match r {
                Some(s) => self@.contains_key(key@) && self@[key@] == s@,
                None => !self@.contains_key(key@),
            },
    {
        let n = self.entries.len();
        let ghost s = registry_entries(self.entries@);
        let mut i = n;
        while i > 0
            invariant
                i <= n,
                n == self.entries@.len(),
                s == registry_entries(self.entries@),
                forall|j: int| i <= j < n ==> s[j].0 != key@,
            decreases i,
        {
            i = i - 1;
            if bytes_eq(&self.entries[i].0, key) {
                proof {
                    lemma_registry_found(s, key@, i as int);
                }
                return Some(self.entries[i].1.clone());
            }
        }
        proof {
            lemma_registry_absent(s, key@);
        }
        None
    }
}

/// Records (caller identity, subject) in the registry, overwrite-safe: the
/// same subject again changes nothing, and the identity encoding is the
/// fixed-size prefix of the principal's bytes.
pub fn register_user(state: &mut crate::state::State, principal: Vec<u8>, user_sub: String)
    requires
        principal@.len() >= 29,
    ensures
        final(state)@ == (crate::state::StateView {
            users: old(state)@.users.insert(principal@.subrange(0, 29), user_sub@),
            ..old(state)@
        }),
{
    let blob = crate::utils::principal_to_blob(&principal);
    state.users.insert(blob, user_sub);
}

/// The subject registered for a caller, if any.
pub fn get_user_sub(state: &crate::state::State, principal: &Vec<u8>) -> (r: Option<String>)
    requires
        principal@.len() >= 29,
    ensures
        match r {
            Some(s) => state@.users.contains_key(principal@.subrange(0, 29)) && state@.users[
                principal@.subrange(0, 29)
            ] == s@,
            None => !state@.users.contains_key(principal@.subrange(0, 29)),
        },
{
    let blob = crate::utils::principal_to_blob(principal);
    state.users.get(&blob)
}

} // verus!
