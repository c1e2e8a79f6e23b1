//! The registry: a mapping from validator keys to payout addresses, created
//! empty at startup and mutated only by validated writes. Its mathematical
//! model is a `Map` from normalized key strings to normalized address
//! strings.

use vstd::prelude::*;

use crate::identity::BLSPubkey;
use crate::identity::Eth1Address;

verus! {

/// The shared state of the service: the registry of payout addresses.
pub struct Config {
    db: Vec<(BLSPubkey, Eth1Address)>,
}

impl View for Config {
    type V = Map<Seq<char>, Seq<char>>;

    open spec fn view(&self) -> Map<Seq<char>, Seq<char>> {
        Map::new(|k: Seq<char>| self.has_key(k), |k: Seq<char>| self.value_at(self.index_of(k)))
    }
}

impl Default for Config {
    /// The registry starts empty.
    fn default() -> (r: Config)
        ensures
            r.wf(),
            r@ == Map::<Seq<char>, Seq<char>>::empty(),
            r.entries().len() == 0,
    {
        Config::new()
    }
}

impl Config {
    /// The stored key/value pairs, in insertion order.
    pub closed spec fn entries(self) -> Seq<(BLSPubkey, Eth1Address)> {
        self.db@
    }

    /// The normalized key string of the pair at position `i`.
    pub open spec fn key_at(self, i: int) -> Seq<char> {
        self.entries()[i].0@
    }

    /// The normalized address string of the pair at position `i`.
    pub open spec fn value_at(self, i: int) -> Seq<char> {
        self.entries()[i].1@
    }

    /// Some stored pair has the key string `k`.
    pub open spec fn has_key(self, k: Seq<char>) -> bool {
        exists|i: int| 0 <= i < self.entries().len() && self.key_at(i) == k
    }

    /// The position of the pair whose key string is `k`.
    pub open spec fn index_of(self, k: Seq<char>) -> int {
        choose|i: int| 0 <= i < self.entries().len() && self.key_at(i) == k
    }

    /// Invariant: keys are pairwise distinct, and every stored pair passed
    /// validation when it was inserted.
    pub open spec fn wf(self) -> bool {
        &&& forall|i: int, j: int|
            0 <= i < j < self.entries().len() ==> self.key_at(i) != self.key_at(j)
        &&& forall|i: int|
            0 <= i < self.entries().len() ==> (#[trigger] self.entries()[i]).0.wf()
                && self.entries()[i].1.wf()
    }

    /// Creates the empty registry.
    pub fn new() -> (r: Config)
        ensures
            r.wf(),
            r@ == Map::<Seq<char>, Seq<char>>::empty(),
            r.entries().len() == 0,
    {
        let r = Config { db: Vec::new() };
        proof {
            assert(r@ =~= Map::<Seq<char>, Seq<char>>::empty());
        }
        r
    }

    /// Looks up the address currently mapped to `key`; never mutates.
    pub fn get(&self, key: &BLSPubkey) -> (r: Option<&Eth1Address>)
        requires
            self.wf(),
        ensures
            match r {
                Some(a) => self@.contains_key(key@) && a@ == self@[key@],
                None => !self@.contains_key(key@),
            },
    {
        let n = self.db.len();
        let mut i: usize = 0;
        while i < n
            invariant
                self.wf(),
                n == self.entries().len(),
                i <= n,
                forall|j: int| 0 <= j < i ==> self.key_at(j) != key@,
            decreases n - i,
        {
            if self.db[i].0.key_eq(key) {
                proof {
                    assert(self.key_at(i as int) == key@);
                    assert(self.has_key(key@));
                    let w = self.index_of(key@);
                    assert(0 <= w < self.entries().len() && self.key_at(w) == key@);
                    assert(w == i);
                }
                return Some(&self.db[i].1);
            }
            i = i + 1;
        }
        proof {
            assert(!self.has_key(key@));
        }
        None
    }

    /// Inserts or overwrites the mapping for `key`. Always succeeds: the
    /// arguments already passed validation. An existing pair is overwritten
    /// in place; a new key is appended after all existing pairs.
    pub fn set(&mut self, key: BLSPubkey, value: Eth1Address)
        requires
            old(self).wf(),
            key.wf(),
            value.wf(),
        ensures
            final(self).wf(),
            final(self)@ == old(self)@.insert(key@, value@),
            old(self).has_key(key@) ==> final(self).entries() == old(self).entries().update(
                old(self).index_of(key@),
                (key, value),
            ),
            !old(self).has_key(key@) ==> final(self).entries() == old(self).entries().push(
                (key, value),
            ),
    {
        let ghost prev = *self;
        let n = self.db.len();
        let mut i: usize = 0;
        while i < n
            invariant
                *self == prev,
                prev == *old(self),
                prev.wf(),
                key.wf(),
                value.wf(),
                n == prev.entries().len(),
                i <= n,
                forall|j: int| 0 <= j < i ==> prev.key_at(j) != key@,
            decreases n - i,
        {
            if self.db[i].0.key_eq(&key) {
                self.db.set(i, (key, value));
                proof {
                    assert(prev.key_at(i as int) == key@);
                    assert(prev.has_key(key@));
                    let w = prev.index_of(key@);
                    assert(0 <= w < prev.entries().len() && prev.key_at(w) == key@);
                    assert(w == i);
                    lemma_update_view(prev, *self, key, value, i as int);
                }
                return ;
            }
            i = i + 1;
        }
        self.db.push((key, value));
        proof {
            assert(!prev.has_key(key@));
            lemma_push_view(prev, *self, key, value);
        }
    }

    /// Returns a point-in-time, independent copy of the whole registry as
    /// normalized `(key, address)` string pairs, in insertion order; later
    /// mutations do not affect the copy.
    pub fn snapshot(&self) -> (r: Vec<(String, String)>)
        requires
            self.wf(),
        ensures
            r@.len() == self.entries().len(),
            forall|i: int|
                0 <= i < r@.len() ==> (#[trigger] r@[i]).0@ == self.key_at(i) && r@[i].1@
                    == self.value_at(i),
    {
        let n = self.db.len();
        let mut r: Vec<(String, String)> = Vec::new();
        let mut i: usize = 0;
        while i < n
            invariant
                n == self.entries().len(),
                i <= n,
                r@.len() == i,
                forall|j: int|
                    0 <= j < i ==> (#[trigger] r@[j]).0@ == self.key_at(j) && r@[j].1@
                        == self.value_at(j),
            decreases n - i,
        {
            let k = String::from_str(self.db[i].0.as_str());
            let v = String::from_str(self.db[i].1.as_str());
            r.push((k, v));
            i = i + 1;
        }
        r
    }
}

/// Overwriting the pair at the position already holding `key` changes the
/// registry's model to the insertion of the new value.
proof fn lemma_update_view(prev: Config, cur: Config, key: BLSPubkey, value: Eth1Address, w: int)
    requires
        prev.wf(),
        key.wf(),
        value.wf(),
        0 <= w < prev.entries().len(),
        prev.key_at(w) == key@,
        cur.entries() == prev.entries().update(w, (key, value)),
    ensures
        cur.wf(),
        cur@ == prev@.insert(key@, value@),
{
    assert forall|k: Seq<char>| true implies cur.has_key(k) == (prev.has_key(k) || k == key@) by {
        if cur.has_key(k) {
            let i = choose|i: int| 0 <= i < cur.entries().len() && cur.key_at(i) == k;
            if i == w {
                assert(k == key@);
            } else {
                assert(prev.key_at(i) == k);
                assert(prev.has_key(k));
            }
        }
        if prev.has_key(k) {
            let i = choose|i: int| 0 <= i < prev.entries().len() && prev.key_at(i) == k;
            if i == w {
                assert(cur.key_at(w) == key@);
                assert(k == key@);
                assert(cur.has_key(k));
            } else {
                assert(cur.key_at(i) == k);
                assert(cur.has_key(k));
            }
        }
        if k == key@ {
            assert(cur.key_at(w) == key@);
            assert(cur.has_key(k));
        }
    }
    assert forall|i: int, j: int|
        0 <= i < j < cur.entries().len() implies cur.key_at(i) != cur.key_at(j) by {
        if i != w && j != w {
            assert(prev.key_at(i) != prev.key_at(j));
        }
    }
    assert forall|k: Seq<char>| cur.has_key(k) && k != key@ implies cur.value_at(cur.index_of(k))
        == prev.value_at(prev.index_of(k)) by {
        let i = cur.index_of(k);
        assert(0 <= i < cur.entries().len() && cur.key_at(i) == k);
        assert(i != w);
        assert(prev.key_at(i) == k);
        let i2 = prev.index_of(k);
        assert(0 <= i2 < prev.entries().len() && prev.key_at(i2) == k);
        assert(i2 == i);
        assert(cur.value_at(i) == prev.value_at(i));
    }
    assert(cur.key_at(w) == key@);
    assert(cur.has_key(key@));
    let iw = cur.index_of(key@);
    assert(0 <= iw < cur.entries().len() && cur.key_at(iw) == key@);
    assert(iw == w);
    assert(cur.value_at(w) == value@);
    assert(cur@ =~= prev@.insert(key@, value@));
}

/// Appending a pair with a fresh key changes the registry's model to the
/// insertion of the new value.
proof fn lemma_push_view(prev: Config, cur: Config, key: BLSPubkey, value: Eth1Address)
    requires
        prev.wf(),
        key.wf(),
        value.wf(),
        !prev.has_key(key@),
        cur.entries() == prev.entries().push((key, value)),
    ensures
        cur.wf(),
        cur@ == prev@.insert(key@, value@),
{
    let n = prev.entries().len() as int;
    assert forall|k: Seq<char>| true implies cur.has_key(k) == (prev.has_key(k) || k == key@) by {
        if cur.has_key(k) {
            let i = choose|i: int| 0 <= i < cur.entries().len() && cur.key_at(i) == k;
            if i == n {
                assert(k == key@);
            } else {
                assert(prev.key_at(i) == k);
                assert(prev.has_key(k));
            }
        }
        if prev.has_key(k) {
            let i = choose|i: int| 0 <= i < prev.entries().len() && prev.key_at(i) == k;
            assert(cur.key_at(i) == k);
            assert(cur.has_key(k));
        }
        if k == key@ {
            assert(cur.key_at(n) == key@);
            assert(cur.has_key(k));
        }
    }
    assert forall|i: int, j: int|
        0 <= i < j < cur.entries().len() implies cur.key_at(i) != cur.key_at(j) by {
        if j == n {
            assert(prev.key_at(i) == cur.key_at(i));
            assert(prev.has_key(cur.key_at(i)));
        } else {
            assert(prev.key_at(i) != prev.key_at(j));
        }
    }
    assert forall|k: Seq<char>| cur.has_key(k) && k != key@ implies cur.value_at(cur.index_of(k))
        == prev.value_at(prev.index_of(k)) by {
        let i = cur.index_of(k);
        assert(0 <= i < cur.entries().len() && cur.key_at(i) == k);
        assert(i != n);
        assert(prev.key_at(i) == k);
        let i2 = prev.index_of(k);
        assert(i2 == i);
    }
    assert(cur.key_at(n) == key@);
    assert(cur.has_key(key@));
    let iw = cur.index_of(key@);
    assert(0 <= iw < cur.entries().len() && cur.key_at(iw) == key@);
    assert(iw == n);
    assert(cur.value_at(n) == value@);
    assert(cur@ =~= prev@.insert(key@, value@));
}

/// The registry model after a sequence of writes, applied in order.
pub open spec fn apply_writes(
    m: Map<Seq<char>, Seq<char>>,
    ws: Seq<(Seq<char>, Seq<char>)>,
) -> Map<Seq<char>, Seq<char>>
    decreases ws.len(),
{
    if ws.len() == 0 {
        m
    } else {
        apply_writes(m, ws.drop_last()).insert(ws.last().0, ws.last().1)
    }
}

/// Law: a write is read back exactly until overwritten. After writing `v`
/// under `k`, the registry maps `k` to `v`, and a later write under a
/// different key leaves the mapping for `k` unchanged.
pub proof fn lemma_set_then_get(
    m: Map<Seq<char>, Seq<char>>,
    k: Seq<char>,
    v: Seq<char>,
    k2: Seq<char>,
    v2: Seq<char>,
)
    requires
        k2 != k,
    ensures
        m.insert(k, v).contains_key(k),
        m.insert(k, v)[k] == v,
        m.insert(k, v).insert(k2, v2)[k] == v,
{
}

/// Law: a key never written stays absent. Applying writes none of which
/// touch `k` to a registry where `k` is absent leaves `k` absent.
pub proof fn lemma_never_written_absent(
    m: Map<Seq<char>, Seq<char>>,
    ws: Seq<(Seq<char>, Seq<char>)>,
    k: Seq<char>,
)
    requires
        !m.contains_key(k),
        forall|i: int| 0 <= i < ws.len() ==> (#[trigger] ws[i]).0 != k,
    ensures
        !apply_writes(m, ws).contains_key(k),
    decreases ws.len(),
{
    if ws.len() > 0 {
        lemma_never_written_absent(m, ws.drop_last(), k);
    }
}

/// Law: writes of pairwise-distinct keys to the empty registry leave it
/// holding exactly those entries — every written key maps to its written
/// value, and no other key is present.
pub proof fn lemma_distinct_writes_exact(ws: Seq<(Seq<char>, Seq<char>)>)
    requires
        forall|i: int, j: int| 0 <= i < j < ws.len() ==> (#[trigger] ws[i]).0 != (#[trigger] ws[j]).0,
    ensures
        forall|i: int|
            0 <= i < ws.len() ==> apply_writes(Map::empty(), ws).contains_key((#[trigger] ws[i]).0)
                && apply_writes(Map::empty(), ws)[ws[i].0] == ws[i].1,
        forall|k: Seq<char>|
            apply_writes(Map::empty(), ws).contains_key(k) ==> exists|i: int|
                0 <= i < ws.len() && (#[trigger] ws[i]).0 == k,
    decreases ws.len(),
{
    if ws.len() > 0 {
        let prefix = ws.drop_last();
        lemma_distinct_writes_exact(prefix);
        assert forall|i: int|
            0 <= i < ws.len() implies apply_writes(Map::empty(), ws).contains_key(
            (#[trigger] ws[i]).0,
        ) && apply_writes(Map::empty(), ws)[ws[i].0] == ws[i].1 by {
            if i < ws.len() - 1 {
                assert(prefix[i] == ws[i]);
                assert(ws[i].0 != ws[ws.len() - 1].0);
            }
        }
        assert forall|k: Seq<char>|
            apply_writes(Map::empty(), ws).contains_key(k) implies exists|i: int|
            0 <= i < ws.len() && (#[trigger] ws[i]).0 == k by {
            if k == ws.last().0 {
                assert(0 <= ws.len() - 1 < ws.len() && ws[ws.len() - 1].0 == k);
            } else {
                assert(apply_writes(Map::empty(), prefix).contains_key(k));
                let i = choose|i: int| 0 <= i < prefix.len() && (#[trigger] prefix[i]).0 == k;
                assert(0 <= i < prefix.len() && prefix[i].0 == k);
                assert(prefix[i] == ws[i]);
                assert(0 <= i < ws.len() && ws[i].0 == k);
            }
        }
    }
}

} // verus!
