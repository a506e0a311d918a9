//! Nonces for wallet challenges, one per public key, each valid for five
//! minutes and usable once. Times are milliseconds of a monotonic clock that
//! the caller reads; the caller also serializes access to the store.
use vstd::prelude::*;
use rand::Rng;
use crate::text::{opt_view, str_eq};

verus! {

/// How long a nonce stays valid, in milliseconds (five minutes).
pub const NONCE_TTL_MS: u64 = 300000;

/// How many characters a nonce has.
pub const NONCE_LENGTH: usize = 32;

/// `c` is an ASCII letter or digit.
pub open spec fn is_ascii_alphanumeric(c: char) -> bool {
    ('a' <= c && c <= 'z') || ('A' <= c && c <= 'Z') || ('0' <= c && c <= '9')
}

/// `len` characters drawn from the thread's random generator, each uniformly
/// among the ASCII letters and digits (`rand::distributions::Alphanumeric`).
#[verifier::external_body]
fn random_alphanumeric(len: usize) -> (r: String)
    ensures
        r@.len() == len,
        forall|i: int| 0 <= i < len ==> is_ascii_alphanumeric(#[trigger] r@[i]),
{
    rand::thread_rng().sample_iter(&rand::distributions::Alphanumeric).take(len).map(char::from).collect()
}

/// A stored nonce and the time it stops being valid.
struct NonceEntry {
    nonce: String,
    expires_at: u64,
}

/// The nonces handed out and not yet used, by public key.
pub struct NonceStore {
    entries: Vec<(String, NonceEntry)>,
}

/// What the store holds for a key: the nonce and its expiry.
pub type NonceMap = Map<Seq<char>, (Seq<char>, u64)>;

spec fn key_of(e: (String, NonceEntry)) -> Seq<char> {
    e.0@
}

spec fn value_of(e: (String, NonceEntry)) -> (Seq<char>, u64) {
    (e.1.nonce@, e.1.expires_at)
}

spec fn map_of(s: Seq<(String, NonceEntry)>) -> NonceMap
    decreases s.len(),
{
    if s.len() == 0 {
        Map::empty()
    } else {
        map_of(s.drop_last()).insert(key_of(s.last()), value_of(s.last()))
    }
}

spec fn keys_unique(s: Seq<(String, NonceEntry)>) -> bool {
    forall|i: int, j: int| 0 <= i < s.len() && 0 <= j < s.len() && i != j ==> key_of(s[i]) != key_of(s[j])
}

proof fn lemma_map_of_keys(s: Seq<(String, NonceEntry)>, k: Seq<char>)
    requires
        keys_unique(s),
    ensures
        map_of(s).contains_key(k) <==> exists|i: int| 0 <= i < s.len() && key_of(s[i]) == k,
        forall|i: int| 0 <= i < s.len() && key_of(s[i]) == k ==> map_of(s)[k] == value_of(#[trigger] s[i]),
    decreases s.len(),
{
    if s.len() > 0 {
        let t = s.drop_last();
        assert(keys_unique(t)) by {
            assert forall|i: int, j: int| 0 <= i < t.len() && 0 <= j < t.len() && i != j implies key_of(t[i]) != key_of(t[j]) by {
                assert(t[i] == s[i] && t[j] == s[j]);
            }
        }
        lemma_map_of_keys(t, k);
        if map_of(s).contains_key(k) {
            if key_of(s.last()) != k {
                let i = choose|i: int| 0 <= i < t.len() && key_of(t[i]) == k;
                assert(s[i] == t[i]);
            }
        }
        assert forall|i: int| 0 <= i < s.len() && key_of(s[i]) == k implies map_of(s)[k] == value_of(#[trigger] s[i]) by {
            if i < s.len() - 1 {
                assert(s[i] == t[i]);
                assert(key_of(s.last()) != k);
            }
        }
        if exists|i: int| 0 <= i < s.len() && key_of(s[i]) == k {
            let i = choose|i: int| 0 <= i < s.len() && key_of(s[i]) == k;
            if i < s.len() - 1 {
                assert(t[i] == s[i]);
            }
        }
    }
}

proof fn lemma_map_of_remove(s: Seq<(String, NonceEntry)>, i: int)
    requires
        keys_unique(s),
        0 <= i < s.len(),
    ensures
        map_of(s.remove(i)) == map_of(s).remove(key_of(s[i])),
        keys_unique(s.remove(i)),
{
    let r = s.remove(i);
    let k = key_of(s[i]);
    assert(keys_unique(r)) by {
        assert forall|a: int, b: int| 0 <= a < r.len() && 0 <= b < r.len() && a != b implies key_of(r[a]) != key_of(r[b]) by {
            let a2 = if a < i { a } else { a + 1 };
            let b2 = if b < i { b } else { b + 1 };
            assert(r[a] == s[a2] && r[b] == s[b2]);
        }
    }
    assert forall|x: Seq<char>| #[trigger] map_of(r).contains_key(x) == map_of(s).remove(k).contains_key(x) by {
        lemma_map_of_keys(r, x);
        lemma_map_of_keys(s, x);
        if map_of(r).contains_key(x) {
            let a = choose|a: int| 0 <= a < r.len() && key_of(r[a]) == x;
            let a2 = if a < i { a } else { a + 1 };
            assert(r[a] == s[a2]);
        }
        if map_of(s).remove(k).contains_key(x) {
            let a = choose|a: int| 0 <= a < s.len() && key_of(s[a]) == x;
            assert(a != i);
            let a2 = if a < i { a } else { a - 1 };
            assert(r[a2] == s[a]);
        }
    }
    assert forall|x: Seq<char>| #[trigger] map_of(r).contains_key(x) implies map_of(r)[x] == map_of(s).remove(k)[x] by {
        lemma_map_of_keys(r, x);
        lemma_map_of_keys(s, x);
        let a = choose|a: int| 0 <= a < r.len() && key_of(r[a]) == x;
        let a2 = if a < i { a } else { a + 1 };
        assert(r[a] == s[a2]);
    }
    assert(map_of(r) =~= map_of(s).remove(k));
}

proof fn lemma_map_of_update(s: Seq<(String, NonceEntry)>, i: int, e: (String, NonceEntry))
    requires
        keys_unique(s),
        0 <= i < s.len(),
        key_of(e) == key_of(s[i]),
    ensures
        map_of(s.update(i, e)) == map_of(s).insert(key_of(e), value_of(e)),
        keys_unique(s.update(i, e)),
{
    let u = s.update(i, e);
    let k = key_of(e);
    assert(keys_unique(u)) by {
        assert forall|a: int, b: int| 0 <= a < u.len() && 0 <= b < u.len() && a != b implies key_of(u[a]) != key_of(u[b]) by {
            assert(key_of(u[a]) == key_of(s[a]));
            assert(key_of(u[b]) == key_of(s[b]));
        }
    }
    assert forall|x: Seq<char>| #[trigger] map_of(u).contains_key(x) == map_of(s).insert(k, value_of(e)).contains_key(x) by {
        lemma_map_of_keys(u, x);
        lemma_map_of_keys(s, x);
        if map_of(u).contains_key(x) {
            let a = choose|a: int| 0 <= a < u.len() && key_of(u[a]) == x;
            assert(key_of(u[a]) == key_of(s[a]));
        }
        if map_of(s).contains_key(x) {
            let a = choose|a: int| 0 <= a < s.len() && key_of(s[a]) == x;
            assert(key_of(u[a]) == key_of(s[a]));
        }
        if x == k {
            assert(key_of(u[i]) == x);
        }
    }
    assert forall|x: Seq<char>| #[trigger] map_of(u).contains_key(x) implies map_of(u)[x] == map_of(s).insert(k, value_of(e))[x] by {
        lemma_map_of_keys(u, x);
        lemma_map_of_keys(s, x);
        let a = choose|a: int| 0 <= a < u.len() && key_of(u[a]) == x;
        if a == i {
            assert(u[a] == e);
        } else {
            assert(u[a] == s[a]);
        }
    }
    assert(map_of(u) =~= map_of(s).insert(k, value_of(e)));
}

impl View for NonceStore {
    type V = NonceMap;

    closed spec fn view(&self) -> NonceMap {
        map_of(self.entries@)
    }
}

/// What a store holds after handing out `nonce` for `key` at `now`.
pub open spec fn after_generate(m: NonceMap, key: Seq<char>, nonce: Seq<char>, now: u64) -> NonceMap {
    m.insert(key, (nonce, (now + NONCE_TTL_MS) as u64))
}

/// What consuming the nonce of `key` at `now` gives: the nonce, unless there
/// is none or it expired before `now`.
pub open spec fn consume_outcome(m: NonceMap, key: Seq<char>, now: u64) -> Option<Seq<char>> {
    if m.contains_key(key) && !(m[key].1 < now) {
        Some(m[key].0)
    } else {
        None
    }
}

impl NonceStore {
    #[verifier::type_invariant]
    spec fn wf(&self) -> bool {
        keys_unique(self.entries@)
    }

    /// An empty store.
    pub fn new() -> (r: NonceStore)
        ensures
            r@ == Map::<Seq<char>, (Seq<char>, u64)>::empty(),
    {
        NonceStore { entries: Vec::new() }
    }

    /// The position of the entry for `key`, if any.
    fn position(&self, key: &str) -> (r: Option<usize>)
        ensures
            match r {
                Some(i) => i < self.entries@.len() && key_of(self.entries@[i as int]) == key@,
                None => forall|i: int| 0 <= i < self.entries@.len() ==> key_of(#[trigger] self.entries@[i]) != key@,
            },
    {
        let mut i: usize = 0;
        while i < self.entries.len()
            invariant
                i <= self.entries@.len(),
                forall|j: int| 0 <= j < i ==> key_of(#[trigger] self.entries@[j]) != key@,
            decreases self.entries.len() - i,
        {
            if str_eq(self.entries[i].0.as_str(), key) {
                return Some(i);
            }
            i = i + 1;
        }
        None
    }

    /// Hands out a fresh nonce for `public_key`, valid until five minutes after
    /// `now_ms`, replacing any earlier one.
    pub fn generate(&mut self, public_key: &str, now_ms: u64) -> (nonce: String)
        requires
            now_ms + NONCE_TTL_MS <= u64::MAX,
        ensures
            nonce@.len() == NONCE_LENGTH,
            forall|i: int| 0 <= i < NONCE_LENGTH ==> is_ascii_alphanumeric(#[trigger] nonce@[i]),
            final(self)@ == after_generate(old(self)@, public_key@, nonce@, now_ms),
    {
        proof {
            use_type_invariant(&*self);
        }
        let nonce = random_alphanumeric(NONCE_LENGTH);
        let entry = NonceEntry { nonce: nonce.clone(), expires_at: now_ms + NONCE_TTL_MS };
        let key = String::from_str(public_key);
        let ghost e = (key, entry);
        match self.position(public_key) {
            Some(i) => {
                proof {
                    lemma_map_of_update(self.entries@, i as int, e);
                }
                let mut entries: Vec<(String, NonceEntry)> = Vec::new();
                std::mem::swap(&mut entries, &mut self.entries);
                entries.set(i, (key, entry));
                self.entries = entries;
            },
            None => {
                let mut entries: Vec<(String, NonceEntry)> = Vec::new();
                std::mem::swap(&mut entries, &mut self.entries);
                proof {
                    assert(keys_unique(entries@.push(e))) by {
                        assert forall|a: int, b: int| 0 <= a < entries@.push(e).len() && 0 <= b < entries@.push(e).len() && a != b
                            implies key_of(entries@.push(e)[a]) != key_of(entries@.push(e)[b]) by {
                            if a < entries@.len() && b < entries@.len() {
                                assert(entries@.push(e)[a] == entries@[a]);
                                assert(entries@.push(e)[b] == entries@[b]);
                            } else if a < entries@.len() {
                                assert(entries@.push(e)[a] == entries@[a]);
                            } else if b < entries@.len() {
                                assert(entries@.push(e)[b] == entries@[b]);
                            }
                        }
                    }
                    assert(entries@.push(e).drop_last() =~= entries@);
                }
                entries.push((key, entry));
                self.entries = entries;
            },
        }
        nonce
    }

    /// Takes the nonce of `public_key` out of the store: the nonce when it is
    /// there and has not expired by `now_ms`, else nothing. Either way the key
    /// has no nonce afterwards.
    pub fn consume(&mut self, public_key: &str, now_ms: u64) -> (r: Option<String>)
        ensures
            final(self)@ == old(self)@.remove(public_key@),
            opt_view(r) == consume_outcome(old(self)@, public_key@, now_ms),
    {
        proof {
            use_type_invariant(&*self);
            lemma_map_of_keys(self.entries@, public_key@);
        }
        match self.position(public_key) {
            None => {
                proof {
                    assert(self@.remove(public_key@) =~= self@);
                }
                None
            },
            Some(i) => {
                proof {
                    lemma_map_of_remove(self.entries@, i as int);
                }
                let mut entries: Vec<(String, NonceEntry)> = Vec::new();
                std::mem::swap(&mut entries, &mut self.entries);
                let (_, entry) = entries.remove(i);
                self.entries = entries;
                if entry.expires_at < now_ms {
                    None
                } else {
                    Some(entry.nonce)
                }
            },
        }
    }
}

} // verus!
