//! The request vault: transient, single-use entries under opaque keys, each
//! with a time after which it no longer counts. Taking an entry fetches and
//! deletes it in one step, so that no key is redeemed twice. The vault here
//! lives in memory; what it answers is what the protocol counts on from any
//! vault that stands in its place.
use vstd::prelude::*;
use crate::text::same_text;

verus! {

/// Why the vault could not serve a request.
#[derive(Clone, Copy, Debug, PartialEq, Eq, Structural)]
pub enum VaultFault {
    /// No connection to the vault could be had.
    Unavailable,
    /// The vault was reached and the command failed.
    Failed,
    /// An entry was found that cannot be read as what was asked for.
    Unreadable,
}

/// The text every vault client reports when no connection can be had.
pub open spec fn no_connection_text() -> Seq<char> {
    "Failed to get connection from pool"@
}

/// What the vault holds under a key, and the first second at which it no
/// longer counts.
pub struct Kept<T> {
    pub value: T,
    pub expires_at: int,
}

/// What is to be had under `key` at time `now`: the value kept there, unless
/// its time has run out.
pub open spec fn live<T>(m: Map<Seq<char>, Kept<T>>, key: Seq<char>, now: int) -> Option<T> {
    if m.contains_key(key) && now < m[key].expires_at {
        Some(m[key].value)
    } else {
        None
    }
}

struct VaultEntry<T> {
    key: String,
    value: T,
    expires_at: i128,
}

/// A vault in memory.
pub struct RequestVault<T> {
    entries: Vec<VaultEntry<T>>,
}

impl<T> RequestVault<T> {
    spec fn has(&self, key: Seq<char>) -> bool {
        exists|i: int| 0 <= i < self.entries@.len() && self.entries@[i].key@ == key
    }

    spec fn at(&self, key: Seq<char>) -> int {
        choose|i: int| 0 <= i < self.entries@.len() && self.entries@[i].key@ == key
    }

    /// No key is kept twice.
    #[verifier::type_invariant]
    spec fn wf(&self) -> bool {
        forall|i: int, j: int|
            0 <= i < j < self.entries@.len() ==> self.entries@[i].key@ != self.entries@[j].key@
    }

    /// The vault as a map from keys to what is kept under them.
    pub closed spec fn view(&self) -> Map<Seq<char>, Kept<T>> {
        Map::new(
            |k: Seq<char>| self.has(k),
            |k: Seq<char>|
                Kept {
                    value: self.entries@[self.at(k)].value,
                    expires_at: self.entries@[self.at(k)].expires_at as int,
                },
        )
    }

    proof fn lemma_entry(&self, i: int)
        requires
            self.wf(),
            0 <= i < self.entries@.len(),
        ensures
            self@.contains_key(self.entries@[i].key@),
            self@[self.entries@[i].key@] == (Kept {
                value: self.entries@[i].value,
                expires_at: self.entries@[i].expires_at as int,
            }),
    {
        let k = self.entries@[i].key@;
        assert(self.has(k));
        let j = self.at(k);
        assert(j == i) by {
            if j < i {
                assert(self.entries@[j].key@ != self.entries@[i].key@);
            } else if i < j {
                assert(self.entries@[i].key@ != self.entries@[j].key@);
            }
        }
    }

    /// An empty vault.
    pub fn new() -> (r: Self)
        ensures
            r@ == Map::<Seq<char>, Kept<T>>::empty(),
    {
        let r = RequestVault { entries: Vec::new() };
        assert(r@ =~= Map::<Seq<char>, Kept<T>>::empty());
        r
    }

    fn position(&self, key: &str) -> (r: Option<usize>)
        ensures
            match r {
                Some(i) => i < self.entries@.len() && self.entries@[i as int].key@ == key@,
                None => !self@.contains_key(key@),
            },
    {
        let mut i: usize = 0;
        while i < self.entries.len()
            invariant
                i <= self.entries@.len(),
                forall|j: int| 0 <= j < i ==> self.entries@[j].key@ != key@,
            decreases self.entries@.len() - i,
        {
            if same_text(self.entries[i].key.as_str(), key) {
                return Some(i);
            }
            i = i + 1;
        }
        assert(!self.has(key@));
        None
    }

    /// Takes the entry under `key`: whatever is kept there is gone afterwards,
    /// and is handed out if its time has not run out at `now`.
    pub fn take(&mut self, key: &str, now: i64) -> (r: Option<T>)
        ensures
            final(self)@ == old(self)@.remove(key@),
            r == live(old(self)@, key@, now as int),
    {
        proof {
            use_type_invariant(&*self);
        }
        let Some(i) = self.position(key) else {
            assert(self@ =~= self@.remove(key@));
            return None;
        };
        proof {
            self.lemma_entry(i as int);
        }
        let ghost before = *self;
        let mut entries = Vec::new();
        std::mem::swap(&mut entries, &mut self.entries);
        let entry = entries.remove(i);
        self.entries = entries;
        proof {
            assert(self.wf());
            assert forall|k: Seq<char>| self@.contains_key(k) <==> before@.remove(
                key@,
            ).contains_key(k) by {
                if self.has(k) {
                    let j = self.at(k);
                    let j0 = if j < i { j } else { j + 1 };
                    assert(before.entries@[j0].key@ == k);
                    assert(before.has(k));
                    assert(j0 != i);
                    if j0 < i {
                        assert(before.entries@[j0].key@ != before.entries@[i as int].key@);
                    } else {
                        assert(before.entries@[i as int].key@ != before.entries@[j0].key@);
                    }
                }
                if before.has(k) && k != key@ {
                    let j0 = before.at(k);
                    let j = if j0 < i { j0 } else { j0 - 1 };
                    assert(self.entries@[j].key@ == k);
                }
            }
            assert forall|k: Seq<char>| self@.contains_key(k) implies self@[k] == before@.remove(
                key@,
            )[k] by {
                let j = self.at(k);
                let j0 = if j < i { j } else { j + 1 };
                self.lemma_entry(j);
                before.lemma_entry(j0);
            }
            assert(self@ =~= before@.remove(key@));
        }
        if (now as i128) < entry.expires_at {
            Some(entry.value)
        } else {
            None
        }
    }

    /// Keeps `value` under `key` until `ttl` seconds after `now`, in place of
    /// whatever was kept there.
    pub fn put(&mut self, key: String, value: T, ttl: u64, now: i64)
        ensures
            final(self)@ == old(self)@.insert(key@, Kept { value, expires_at: now + ttl }),
    {
        let ghost before = *self;
        let _ = self.take(key.as_str(), now);
        proof {
            use_type_invariant(&*self);
        }
        let ghost mid = *self;
        let expires_at: i128 = now as i128 + ttl as i128;
        let mut entries = Vec::new();
        std::mem::swap(&mut entries, &mut self.entries);
        entries.push(VaultEntry { key, value, expires_at });
        proof {
            let n = mid.entries@.len() as int;
            assert(!mid@.contains_key(key@));
            assert(!mid.has(key@));
            assert forall|i: int, j: int| 0 <= i < j < entries@.len() implies entries@[i].key@
                != entries@[j].key@ by {
                if j == n {
                    assert(mid.entries@[i].key@ == entries@[i].key@);
                } else {
                    assert(mid.entries@[i].key@ != mid.entries@[j].key@);
                }
            }
        }
        self.entries = entries;
        proof {
            let n = mid.entries@.len() as int;
            let target = before@.insert(key@, Kept { value, expires_at: now + ttl });
            assert forall|k: Seq<char>| self@.contains_key(k) <==> target.contains_key(k) by {
                assert(mid@.contains_key(k) == mid.has(k));
                assert(target.contains_key(k) == (k == key@ || mid@.contains_key(k)));
                if self.has(k) {
                    let j = self.at(k);
                    if j < n {
                        assert(mid.entries@[j].key@ == k);
                        assert(mid.has(k));
                    }
                }
                if k == key@ {
                    assert(self.entries@[n].key@ == k);
                } else if mid.has(k) {
                    let j = mid.at(k);
                    assert(self.entries@[j].key@ == k);
                }
            }
            assert forall|k: Seq<char>| self@.contains_key(k) implies self@[k] == target[k] by {
                let j = self.at(k);
                self.lemma_entry(j);
                if j < n {
                    assert(mid.entries@[j] == self.entries@[j]);
                    mid.lemma_entry(j);
                    assert(k != key@);
                    assert(target[k] == mid@[k]);
                }
            }
            assert(self@ =~= target);
        }
    }

    /// Looks at what is kept under `key` and leaves it there.
    pub fn peek(&self, key: &str, now: i64) -> (r: Option<&T>)
        ensures
            match live(self@, key@, now as int) {
                Some(v) => r matches Some(found) && *found == v,
                None => r is None,
            },
    {
        proof {
            use_type_invariant(self);
        }
        let Some(i) = self.position(key) else {
            return None;
        };
        proof {
            self.lemma_entry(i as int);
        }
        if (now as i128) < self.entries[i].expires_at {
            Some(&self.entries[i].value)
        } else {
            None
        }
    }
}

} // verus!
