//! The balance ledger: a key-value mapping from canonical address bytes to a
//! stored byte value. A well-formed stored value is exactly 16 big-endian
//! bytes; absence of a key means a balance of zero. The raw bytes are kept in
//! the model so that corrupted stored data is detected on read, never
//! silently misread.

use vstd::prelude::*;

use crate::codec::{be_val, bytes_to_u128};
use crate::errors::Error;

verus! {

/// Compares two byte strings for equality.
pub fn bytes_eq(a: &[u8], b: &[u8]) -> (r: bool)
    ensures
        r == (a@ == b@),
{
    if a.len() != b.len() {
        assert(a@ != b@);
        return false;
    }
    let n = a.len();
    let mut i: usize = 0;
    while i < n
        invariant
            i <= n,
            a@.len() == n,
            b@.len() == n,
            forall|k: int| 0 <= k < i ==> a@[k] == b@[k],
        decreases n - i,
    {
        if a[i] != b[i] {
            assert(a@ != b@);
            return false;
        }
        i = i + 1;
    }
    assert(a@ =~= b@);
    true
}

/// The mapping that a sequence of key-value entries denotes.
pub open spec fn entries_map(s: Seq<(Vec<u8>, Vec<u8>)>) -> Map<Seq<u8>, Seq<u8>>
    decreases s.len(),
{
    if s.len() == 0 {
        Map::empty()
    } else {
        entries_map(s.drop_last()).insert(s.last().0@, s.last().1@)
    }
}

/// Entry keys are pairwise distinct.
pub open spec fn entries_unique(s: Seq<(Vec<u8>, Vec<u8>)>) -> bool {
    forall|i: int, j: int| 0 <= i < j < s.len() ==> s[i].0@ != s[j].0@
}

proof fn lemma_entries_map_index(s: Seq<(Vec<u8>, Vec<u8>)>, i: int)
    requires
        entries_unique(s),
        0 <= i < s.len(),
    ensures
        entries_map(s).contains_key(s[i].0@),
        entries_map(s)[s[i].0@] == s[i].1@,
    decreases s.len(),
{
    if i == s.len() - 1 {
    } else {
        assert(entries_unique(s.drop_last()));
        assert(s.drop_last()[i] == s[i]);
        lemma_entries_map_index(s.drop_last(), i);
        assert(s[i].0@ != s.last().0@);
    }
}

proof fn lemma_entries_map_absent(s: Seq<(Vec<u8>, Vec<u8>)>, k: Seq<u8>)
    requires
        forall|i: int| 0 <= i < s.len() ==> s[i].0@ != k,
    ensures
        !entries_map(s).contains_key(k),
    decreases s.len(),
{
    if s.len() > 0 {
        assert(forall|i: int| 0 <= i < s.drop_last().len() ==> s.drop_last()[i].0@ != k);
        lemma_entries_map_absent(s.drop_last(), k);
        assert(s.last().0@ != k);
    }
}

proof fn lemma_entries_map_update(s: Seq<(Vec<u8>, Vec<u8>)>, i: int, p: (Vec<u8>, Vec<u8>))
    requires
        entries_unique(s),
        0 <= i < s.len(),
        p.0@ == s[i].0@,
    ensures
        entries_map(s.update(i, p)) =~= entries_map(s).insert(p.0@, p.1@),
    decreases s.len(),
{
    let s2 = s.update(i, p);
    if i == s.len() - 1 {
        assert(s2.drop_last() =~= s.drop_last());
        assert(s2.last() == p);
    } else {
        assert(s2.drop_last() =~= s.drop_last().update(i, p));
        assert(entries_unique(s.drop_last()));
        assert(s.drop_last()[i] == s[i]);
        lemma_entries_map_update(s.drop_last(), i, p);
        assert(s2.last() == s.last());
        assert(s.last().0@ != p.0@);
    }
}

/// The balance ledger.
pub struct Ledger {
    entries: Vec<(Vec<u8>, Vec<u8>)>,
}

impl View for Ledger {
    type V = Map<Seq<u8>, Seq<u8>>;

    closed spec fn view(&self) -> Map<Seq<u8>, Seq<u8>> {
        entries_map(self.entries@)
    }
}

impl Ledger {
    /// The ledger's internal key index is free of duplicates.
    pub closed spec fn wf(&self) -> bool {
        entries_unique(self.entries@)
    }

    /// An empty ledger: no address has a balance yet.
    pub fn new() -> (r: Ledger)
        ensures
            r@ == Map::<Seq<u8>, Seq<u8>>::empty(),
            r.wf(),
    {
        Ledger { entries: Vec::new() }
    }

    /// Looks a key up, returning the raw stored bytes if present.
    pub fn get(&self, key: &[u8]) -> (r: Option<&Vec<u8>>)
        requires
            self.wf(),
        ensures
            r is Some <==> self@.contains_key(key@),
            r matches Some(v) ==> self@[key@] == v@,
    {
        let n = self.entries.len();
        let mut i: usize = 0;
        while i < n
            invariant
                i <= n,
                n == self.entries@.len(),
                self.wf(),
                forall|k: int| 0 <= k < i ==> self.entries@[k].0@ != key@,
            decreases n - i,
        {
            let e = vstd::slice::slice_index_get(self.entries.as_slice(), i);
            if bytes_eq(e.0.as_slice(), key) {
                proof {
                    lemma_entries_map_index(self.entries@, i as int);
                }
                return Some(&e.1);
            }
            i = i + 1;
        }
        proof {
            lemma_entries_map_absent(self.entries@, key@);
        }
        None
    }

    /// Stores raw bytes under a key, creating the entry if absent.
    pub fn set(&mut self, key: &[u8], value: Vec<u8>)
        requires
            old(self).wf(),
        ensures
            final(self).wf(),
            final(self)@ == old(self)@.insert(key@, value@),
    {
        let n = self.entries.len();
        let mut i: usize = 0;
        let mut idx: usize = n;
        while i < n
            invariant
                i <= n,
                idx <= n,
                n == self.entries@.len(),
                self.wf(),
                idx == n ==> forall|k: int| 0 <= k < i ==> self.entries@[k].0@ != key@,
                idx < n ==> self.entries@[idx as int].0@ == key@,
            decreases n - i,
        {
            if idx == n {
                let e = vstd::slice::slice_index_get(self.entries.as_slice(), i);
                if bytes_eq(e.0.as_slice(), key) {
                    idx = i;
                }
            }
            i = i + 1;
        }
        if idx < n {
            let k2 = vstd::slice::slice_to_vec(key);
            proof {
                let p = (k2, value);
                assert(p.0@ =~= self.entries@[idx as int].0@);
                lemma_entries_map_update(self.entries@, idx as int, p);
            }
            self.entries[idx] = (k2, value);
            proof {
                assert(entries_unique(self.entries@)) by {
                    assert(forall|a: int, b: int|
                        0 <= a < b < self.entries@.len() ==> self.entries@[a].0@
                            != self.entries@[b].0@);
                }
            }
        } else {
            let k2 = vstd::slice::slice_to_vec(key);
            proof {
                let pushed = self.entries@.push((k2, value));
                assert(pushed.drop_last() =~= self.entries@);
                assert(entries_map(pushed) =~= entries_map(self.entries@).insert(k2@, value@));
            }
            self.entries.push((k2, value));
        }
    }
}

/// Whether the stored value under `k`, if any, is a well-formed 16-byte
/// balance.
pub open spec fn stored_ok(m: Map<Seq<u8>, Seq<u8>>, k: Seq<u8>) -> bool {
    m.contains_key(k) ==> m[k].len() == 16
}

/// The balance recorded under `k`: zero when the key is absent, else the
/// big-endian value of the stored bytes.
pub open spec fn stored_val(m: Map<Seq<u8>, Seq<u8>>, k: Seq<u8>) -> nat {
    if m.contains_key(k) {
        be_val(m[k])
    } else {
        0
    }
}

/// Reads a 16-byte storage value as an unsigned 128-bit balance. A missing
/// key reads as zero; stored data of any other length is rejected as
/// corrupted.
pub fn read_u128(store: &Ledger, key: &[u8]) -> (r: Result<u128, Error>)
    requires
        store.wf(),
    ensures
        stored_ok(store@, key@) ==> (r matches Ok(v) && v as nat == stored_val(store@, key@)),
        !stored_ok(store@, key@) ==> r == Err::<u128, Error>(Error::CorruptedData),
{
    match store.get(key) {
        Some(data) => bytes_to_u128(data.as_slice()),
        None => Ok(0u128),
    }
}

/// Reads the balance of one canonical address.
pub fn read_balance(store: &Ledger, owner: &Vec<u8>) -> (r: Result<u128, Error>)
    requires
        store.wf(),
    ensures
        stored_ok(store@, owner@) ==> (r matches Ok(v) && v as nat == stored_val(store@, owner@)),
        !stored_ok(store@, owner@) ==> r == Err::<u128, Error>(Error::CorruptedData),
{
    read_u128(store, owner.as_slice())
}

} // verus!
