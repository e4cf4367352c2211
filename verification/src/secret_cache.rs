//! Read-through / write-through cache in front of the OS credential store.
//! The in-memory map is consulted first on reads; writes and deletes go to
//! the backing store first and touch the cache only after the backing
//! operation succeeds, so the two never diverge after a write.
use vstd::prelude::*;

use crate::settings::spec_assoc;

verus! {

/// The mapping an association list denotes; the binding nearest the front
/// wins.
pub closed spec fn kv_map(s: Seq<(String, String)>) -> Map<Seq<char>, Seq<char>>
    decreases s.len(),
{
    if s.len() == 0 {
        Map::empty()
    } else {
        kv_map(s.drop_first()).insert(s[0].0@, s[0].1@)
    }
}

proof fn lemma_assoc_matches_map(s: Seq<(String, String)>, k: Seq<char>)
    ensures
        spec_assoc(s, k) == if kv_map(s).contains_key(k) {
            Some(kv_map(s)[k])
        } else {
            None::<Seq<char>>
        },
    decreases s.len(),
{
    if s.len() > 0 {
        lemma_assoc_matches_map(s.drop_first(), k);
    }
}

/// `s` without every entry bound to `k`.
spec fn spec_remove_key(s: Seq<(String, String)>, k: Seq<char>) -> Seq<(String, String)>
    decreases s.len(),
{
    if s.len() == 0 {
        s
    } else if s[0].0@ == k {
        spec_remove_key(s.drop_first(), k)
    } else {
        seq![s[0]] + spec_remove_key(s.drop_first(), k)
    }
}

proof fn lemma_remove_key_map(s: Seq<(String, String)>, k: Seq<char>)
    ensures
        kv_map(spec_remove_key(s, k)) == kv_map(s).remove(k),
    decreases s.len(),
{
    if s.len() == 0 {
        assert(kv_map(s).remove(k) =~= kv_map(s));
    } else {
        lemma_remove_key_map(s.drop_first(), k);
        if s[0].0@ == k {
            assert(kv_map(s).remove(k) =~= kv_map(s.drop_first()).remove(k));
        } else {
            let rest = spec_remove_key(s.drop_first(), k);
            assert((seq![s[0]] + rest).drop_first() =~= rest);
            assert((seq![s[0]] + rest)[0] == s[0]);
            assert(kv_map(s).remove(k) =~= kv_map(s.drop_first()).remove(k).insert(
                s[0].0@,
                s[0].1@,
            ));
        }
    }
}

fn remove_key_vec(entries: &Vec<(String, String)>, k: &str) -> (r: Vec<(String, String)>)
    ensures
        r@ == spec_remove_key(entries@, k@),
{
    let n = entries.len();
    let mut out: Vec<(String, String)> = Vec::new();
    let mut i: usize = 0;
    assert(entries@.skip(0) =~= entries@);
    assert(out@ + spec_remove_key(entries@, k@) =~= spec_remove_key(entries@, k@));
    while i < n
        invariant
            i <= n,
            n == entries@.len(),
            spec_remove_key(entries@, k@) == out@ + spec_remove_key(entries@.skip(i as int), k@),
        decreases n - i,
    {
        assert(entries@.skip(i as int)[0] == entries@[i as int]);
        assert(entries@.skip(i as int).drop_first() =~= entries@.skip(i + 1));
        if !crate::strutil::str_eq(entries[i].0.as_str(), k) {
            let pair = (entries[i].0.clone(), entries[i].1.clone());
            assert(pair == entries@[i as int]);
            let ghost prev = out@;
            out.push(pair);
            assert(prev + (seq![entries@[i as int]] + spec_remove_key(entries@.skip(i + 1), k@))
                =~= out@ + spec_remove_key(entries@.skip(i + 1), k@));
        }
        i += 1;
    }
    assert(entries@.skip(n as int) =~= Seq::<(String, String)>::empty());
    assert(out@ + spec_remove_key(entries@.skip(n as int), k@) =~= out@);
    out
}

/// Process-lifetime cache of provider secrets, a map from provider id to
/// secret string.
pub struct SecretCache {
    entries: Vec<(String, String)>,
}

impl View for SecretCache {
    type V = Map<Seq<char>, Seq<char>>;

    closed spec fn view(&self) -> Map<Seq<char>, Seq<char>> {
        kv_map(self.entries@)
    }
}

impl SecretCache {
    /// An empty cache.
    pub fn new() -> (r: SecretCache)
        ensures
            r@ == Map::<Seq<char>, Seq<char>>::empty(),
    {
        SecretCache { entries: Vec::new() }
    }

    /// Reads the cache alone; never touches the backing store.
    pub fn lookup(&self, provider: &str) -> (r: Option<String>)
        ensures
            r matches Some(v) ==> self@.contains_key(provider@) && self@[provider@] == v@,
            r is None ==> !self@.contains_key(provider@),
    {
        proof {
            lemma_assoc_matches_map(self.entries@, provider@);
        }
        crate::settings::assoc_get(&self.entries, provider)
    }

    /// Binds `provider` to `secret` in the cache.
    pub fn insert(&mut self, provider: &str, secret: &str)
        ensures
            final(self)@ == old(self)@.insert(provider@, secret@),
    {
        let mut filtered = remove_key_vec(&self.entries, provider);
        let pair = (String::from_str(provider), String::from_str(secret));
        filtered.insert(0, pair);
        proof {
            lemma_remove_key_map(self.entries@, provider@);
            assert(filtered@.drop_first() =~= spec_remove_key(self.entries@, provider@));
            assert(kv_map(filtered@) =~= kv_map(self.entries@).insert(provider@, secret@));
        }
        self.entries = filtered;
    }

    /// Drops the binding for `provider` from the cache, if any.
    pub fn remove(&mut self, provider: &str)
        ensures
            final(self)@ == old(self)@.remove(provider@),
    {
        let filtered = remove_key_vec(&self.entries, provider);
        proof {
            lemma_remove_key_map(self.entries@, provider@);
        }
        self.entries = filtered;
    }
}

/// Relies on `keyring::Entry::new` and `Entry::set_password`: writes the
/// secret for `(service, user)` to the OS credential store; either step can
/// fail with a store-specific error.
#[verifier::external_body]
fn keyring_set(service: &str, user: &str, secret: &str) -> Result<(), String> {
    let entry = keyring::Entry::new(service, user)
        .map_err(|e| format!("Failed to create keyring entry: {}", e))?;
    entry
        .set_password(secret)
        .map_err(|e| format!("Failed to store API key: {}", e))
}

/// Relies on `keyring::Entry::new` and `Entry::get_password`: reads the
/// secret for `(service, user)` from the OS credential store; `None` when
/// the entry cannot be built or no secret is stored.
#[verifier::external_body]
fn keyring_get(service: &str, user: &str) -> Option<String> {
    match keyring::Entry::new(service, user) {
        Ok(entry) => entry.get_password().ok(),
        Err(_) => None,
    }
}

/// Relies on `keyring::Entry::new` and `Entry::delete_credential`: removes
/// the secret for `(service, user)` from the OS credential store.
#[verifier::external_body]
fn keyring_delete(service: &str, user: &str) -> Result<(), String> {
    let entry = keyring::Entry::new(service, user)
        .map_err(|e| format!("Failed to create keyring entry: {}", e))?;
    entry
        .delete_credential()
        .map_err(|e| format!("Failed to delete API key: {}", e))
}

/// Writes the key to the credential store first; the cache is updated only
/// after the store reports success, and a store failure leaves the cache
/// untouched.
pub fn store_api_key(cache: &mut SecretCache, provider: &str, key: &str) -> (r: Result<
    (),
    String,
>)
    ensures
        r is Ok ==> final(cache)@ == old(cache)@.insert(provider@, key@),
        r is Err ==> final(cache)@ == old(cache)@,
{
    match keyring_set("handy_voice", provider, key) {
        Ok(()) => {
            cache.insert(provider, key);
            Ok(())
        },
        Err(e) => Err(e),
    }
}

/// Consults the cache first; only on a miss is the backing credential store
/// read, and a read does not populate the cache.
pub fn fetch_api_key(cache: &SecretCache, provider: &str) -> (r: Option<String>)
    ensures
        cache@.contains_key(provider@) ==> (r matches Some(v) && v@ == cache@[provider@]),
        r is None ==> !cache@.contains_key(provider@),
{
    match cache.lookup(provider) {
        Some(v) => Some(v),
        None => keyring_get("handy_voice", provider),
    }
}

/// Deletes from the credential store first; the cache entry is removed only
/// after the store reports success, and a store failure leaves the cache
/// untouched.
pub fn delete_api_key(cache: &mut SecretCache, provider: &str) -> (r: Result<(), String>)
    ensures
        r is Ok ==> final(cache)@ == old(cache)@.remove(provider@),
        r is Err ==> final(cache)@ == old(cache)@,
{
    match keyring_delete("handy_voice", provider) {
        Ok(()) => {
            cache.remove(provider);
            Ok(())
        },
        Err(e) => Err(e),
    }
}

} // verus!
