//! An in-memory session store. Records are kept in the order they were
//! stored; a later record for a key shadows an earlier one, and deleting a key
//! drops every record for it.
use vstd::prelude::*;

use crate::address::Address;
use crate::bytes::copy_bytes;
use crate::errors::InternalError;
use crate::stores::{without_name, SessionStore};

verus! {

/// The map a log of (key, value) records describes: each key maps to the value
/// of its last record.
pub open spec fn map_of<K, V>(s: Seq<(K, V)>) -> Map<K, V>
    decreases s.len(),
{
    if s.len() == 0 {
        Map::empty()
    } else {
        map_of(s.drop_last()).insert(s.last().0, s.last().1)
    }
}

/// The records of `s` whose key is not `k`, in order.
pub open spec fn drop_key<K, V>(s: Seq<(K, V)>, k: K) -> Seq<(K, V)>
    decreases s.len(),
{
    if s.len() == 0 {
        s
    } else if s.last().0 == k {
        drop_key(s.drop_last(), k)
    } else {
        drop_key(s.drop_last(), k).push(s.last())
    }
}

/// The records of `s` whose key is not under the name `name`, in order.
pub open spec fn drop_name<V>(s: Seq<((Seq<u8>, i32), V)>, name: Seq<u8>) -> Seq<
    ((Seq<u8>, i32), V),
>
    decreases s.len(),
{
    if s.len() == 0 {
        s
    } else if s.last().0.0 == name {
        drop_name(s.drop_last(), name)
    } else {
        drop_name(s.drop_last(), name).push(s.last())
    }
}

proof fn lemma_map_of_contains<K, V>(s: Seq<(K, V)>, k: K)
    ensures
        map_of(s).contains_key(k) <==> exists|i: int| 0 <= i < s.len() && (#[trigger] s[i]).0 == k,
    decreases s.len(),
{
    if s.len() > 0 {
        let t = s.drop_last();
        lemma_map_of_contains(t, k);
        if map_of(s).contains_key(k) && s.last().0 != k {
            let i = choose|i: int| 0 <= i < t.len() && (#[trigger] t[i]).0 == k;
            assert(s[i] == t[i]);
        }
        if s.last().0 == k {
            assert(s[s.len() - 1].0 == k);
        }
        if exists|i: int| 0 <= i < s.len() && (#[trigger] s[i]).0 == k {
            let i = choose|i: int| 0 <= i < s.len() && (#[trigger] s[i]).0 == k;
            if i < s.len() - 1 {
                assert(t[i] == s[i]);
            }
        }
    }
}

proof fn lemma_map_of_last<K, V>(s: Seq<(K, V)>, k: K, i: int)
    requires
        0 <= i < s.len(),
        s[i].0 == k,
        forall|j: int| i < j < s.len() ==> (#[trigger] s[j]).0 != k,
    ensures
        map_of(s).contains_key(k),
        map_of(s)[k] == s[i].1,
    decreases s.len(),
{
    if i < s.len() - 1 {
        let t = s.drop_last();
        assert forall|j: int| i < j < t.len() implies (#[trigger] t[j]).0 != k by {
            assert(t[j] == s[j]);
        }
        assert(s[s.len() - 1].0 != k);
        lemma_map_of_last(t, k, i);
    }
}

proof fn lemma_drop_key<K, V>(s: Seq<(K, V)>, k: K)
    ensures
        map_of(drop_key(s, k)) == map_of(s).remove(k),
    decreases s.len(),
{
    if s.len() > 0 {
        let t = s.drop_last();
        lemma_drop_key(t, k);
        if s.last().0 == k {
            assert(map_of(s).remove(k) =~= map_of(t).remove(k));
        } else {
            let d = drop_key(t, k).push(s.last());
            assert(d.drop_last() =~= drop_key(t, k));
            assert(map_of(d) =~= map_of(s).remove(k));
        }
    }
}

proof fn lemma_drop_name<V>(s: Seq<((Seq<u8>, i32), V)>, name: Seq<u8>)
    ensures
        map_of(drop_name(s, name)) == map_of(s).restrict(
            map_of(s).dom().filter(|k: (Seq<u8>, i32)| k.0 != name),
        ),
    decreases s.len(),
{
    if s.len() > 0 {
        let t = s.drop_last();
        lemma_drop_name(t, name);
        let m = map_of(s);
        let mt = map_of(t);
        if s.last().0.0 == name {
            assert(m.restrict(m.dom().filter(|k: (Seq<u8>, i32)| k.0 != name)) =~= mt.restrict(
                mt.dom().filter(|k: (Seq<u8>, i32)| k.0 != name),
            ));
        } else {
            let d = drop_name(t, name).push(s.last());
            assert(d.drop_last() =~= drop_name(t, name));
            assert(map_of(d) =~= m.restrict(m.dom().filter(|k: (Seq<u8>, i32)| k.0 != name)));
        }
    }
}

/// Whether `a` and `b` hold the same bytes.
fn same_bytes(a: &[u8], b: &[u8]) -> (r: bool)
    ensures
        r == (a@ == b@),
{
    if a.len() != b.len() {
        return false;
    }
    let mut i: usize = 0;
    while i < a.len()
        invariant
            a@.len() == b@.len(),
            0 <= i <= a@.len(),
            a@.subrange(0, i as int) == b@.subrange(0, i as int),
        decreases a@.len() - i,
    {
        if a[i] != b[i] {
            assert(a@[i as int] != b@[i as int]);
            return false;
        }
        assert(a@.subrange(0, i + 1) =~= a@.subrange(0, i as int).push(a@[i as int]));
        assert(b@.subrange(0, i + 1) =~= b@.subrange(0, i as int).push(b@[i as int]));
        i = i + 1;
    }
    assert(a@ =~= a@.subrange(0, i as int));
    assert(b@ =~= b@.subrange(0, i as int));
    true
}

/// One stored session record.
struct SessionEntry {
    name: Vec<u8>,
    device_id: i32,
    record: Vec<u8>,
}

impl SessionEntry {
    spec fn pair(&self) -> ((Seq<u8>, i32), Seq<u8>) {
        ((self.name@, self.device_id), self.record@)
    }

    fn copy(&self) -> (r: SessionEntry)
        ensures
            r.pair() == self.pair(),
    {
        SessionEntry {
            name: copy_bytes(self.name.as_slice()),
            device_id: self.device_id,
            record: copy_bytes(self.record.as_slice()),
        }
    }
}

/// Session records held in memory.
pub struct MemorySessionStore {
    entries: Vec<SessionEntry>,
}

impl MemorySessionStore {
    /// The records held, oldest first, as (key, record) pairs.
    pub closed spec fn log(&self) -> Seq<((Seq<u8>, i32), Seq<u8>)> {
        self.entries@.map_values(|e: SessionEntry| e.pair())
    }

    /// An empty store.
    pub fn new() -> (r: MemorySessionStore)
        ensures
            r.sessions() == Map::<(Seq<u8>, i32), Seq<u8>>::empty(),
    {
        let r = MemorySessionStore { entries: Vec::new() };
        assert(r.log() =~= Seq::<((Seq<u8>, i32), Seq<u8>)>::empty());
        r
    }

    /// Index of the last record for (`name`, `device_id`), if any.
    fn find(&self, name: &[u8], device_id: i32) -> (r: Option<usize>)
        ensures
            match r {
                Some(i) => i < self.log().len() && self.log()[i as int].0 == (name@, device_id)
                    && forall|j: int|
                    i < j < self.log().len() ==> (#[trigger] self.log()[j]).0 != (name@, device_id),
                None => forall|j: int|
                    0 <= j < self.log().len() ==> (#[trigger] self.log()[j]).0 != (
                        name@,
                        device_id,
                    ),
            },
    {
        let mut i: usize = self.entries.len();
        while i > 0
            invariant
                i <= self.entries@.len(),
                forall|j: int|
                    i <= j < self.log().len() ==> (#[trigger] self.log()[j]).0 != (name@, device_id),
            decreases i,
        {
            i = i - 1;
            let e = &self.entries[i];
            if e.device_id == device_id && same_bytes(e.name.as_slice(), name) {
                return Some(i);
            }
        }
        None
    }

    /// Drops every record for (`name`, `device_id`), or every record under
    /// `name` when no device is given; the rest keep their order.
    fn drop_records(&mut self, name: &[u8], device_id: Option<i32>)
        ensures
            device_id matches Some(d) ==> final(self).log() == drop_key(old(self).log(), (name@, d)),
            device_id is None ==> final(self).log() == drop_name(old(self).log(), name@),
    {
        let ghost s = self.log();
        let mut kept: Vec<SessionEntry> = Vec::new();
        let mut i: usize = 0;
        while i < self.entries.len()
            invariant
                s == self.log(),
                0 <= i <= s.len(),
                device_id matches Some(d) ==> kept@.map_values(|e: SessionEntry| e.pair())
                    == drop_key(s.subrange(0, i as int), (name@, d)),
                device_id is None ==> kept@.map_values(|e: SessionEntry| e.pair()) == drop_name(
                    s.subrange(0, i as int),
                    name@,
                ),
            decreases s.len() - i,
        {
            let e = &self.entries[i];
            let same_name = same_bytes(e.name.as_slice(), name);
            let drop = match device_id {
                Some(d) => same_name && e.device_id == d,
                None => same_name,
            };
            let ghost before = kept@.map_values(|e: SessionEntry| e.pair());
            proof {
                assert(s.subrange(0, i + 1).drop_last() =~= s.subrange(0, i as int));
                assert(s.subrange(0, i + 1).last() == s[i as int]);
            }
            if !drop {
                let c = e.copy();
                kept.push(c);
                assert(kept@.map_values(|e: SessionEntry| e.pair()) =~= before.push(s[i as int]));
            }
            i = i + 1;
        }
        assert(s.subrange(0, s.len() as int) =~= s);
        self.entries = kept;
    }
}

impl SessionStore for MemorySessionStore {
    open spec fn sessions(&self) -> Map<(Seq<u8>, i32), Seq<u8>> {
        map_of(self.log())
    }

    fn load_session(&self, address: &Address) -> (r: Option<Vec<u8>>) {
        match self.find(address.bytes(), address.device_id()) {
            Some(i) => {
                proof {
                    lemma_map_of_last(self.log(), address.key(), i as int);
                }
                Some(copy_bytes(self.entries[i].record.as_slice()))
            },
            None => {
                proof {
                    lemma_map_of_contains(self.log(), address.key());
                }
                None
            },
        }
    }

    fn sub_device_sessions(&self, name: &[u8]) -> (r: Result<Vec<i32>, InternalError>)
        ensures
            r is Ok,
    {
        let mut ids: Vec<i32> = Vec::new();
        let mut i: usize = 0;
        while i < self.entries.len()
            invariant
                0 <= i <= self.log().len(),
                forall|d: i32|
                    ids@.contains(d) <==> exists|j: int|
                        0 <= j < i && (#[trigger] self.log()[j]).0 == (name@, d),
            decreases self.log().len() - i,
        {
            let e = &self.entries[i];
            if same_bytes(e.name.as_slice(), name) {
                let ghost before = ids@;
                ids.push(e.device_id);
                proof {
                    assert forall|d: i32|
                        ids@.contains(d) <==> exists|j: int|
                            0 <= j < i + 1 && (#[trigger] self.log()[j]).0 == (name@, d) by {
                        if ids@.contains(d) && d != e.device_id {
                            let k = choose|k: int| 0 <= k < ids@.len() && ids@[k] == d;
                            assert(before[k] == d);
                            assert(before.contains(d));
                            let j = choose|j: int| 0 <= j < i && (#[trigger] self.log()[j]).0 == (name@, d);
                            assert(0 <= j < i + 1 && self.log()[j].0 == (name@, d));
                        }
                        if d == e.device_id {
                            assert(self.log()[i as int].0 == (name@, d));
                            assert(ids@[ids@.len() - 1] == d);
                        }
                        if exists|j: int| 0 <= j < i + 1 && (#[trigger] self.log()[j]).0 == (name@, d) {
                            let j = choose|j: int| 0 <= j < i + 1 && (#[trigger] self.log()[j]).0 == (name@, d);
                            if j < i {
                                assert(before.contains(d));
                                let k = choose|k: int| 0 <= k < before.len() && before[k] == d;
                                assert(ids@[k] == d);
                            }
                        }
                    }
                }
            } else {
                proof {
                    assert forall|d: i32|
                        ids@.contains(d) <==> exists|j: int|
                            0 <= j < i + 1 && (#[trigger] self.log()[j]).0 == (name@, d) by {
                        if exists|j: int| 0 <= j < i + 1 && (#[trigger] self.log()[j]).0 == (name@, d) {
                            let j = choose|j: int| 0 <= j < i + 1 && (#[trigger] self.log()[j]).0 == (name@, d);
                            assert(j != i);
                        }
                    }
                }
            }
            i = i + 1;
        }
        proof {
            assert forall|d: i32| ids@.contains(d) <==> self.sessions().contains_key((name@, d)) by {
                lemma_map_of_contains(self.log(), (name@, d));
            }
        }
        Ok(ids)
    }

    fn store_session(&mut self, address: &Address, session: &[u8]) -> (r: Result<(), InternalError>)
        ensures
            r is Ok,
    {
        let e = SessionEntry {
            name: copy_bytes(address.bytes()),
            device_id: address.device_id(),
            record: copy_bytes(session),
        };
        let ghost s = self.log();
        self.entries.push(e);
        assert(self.log() =~= s.push((address.key(), session@)));
        assert(self.log().drop_last() =~= s);
        Ok(())
    }

    fn contains_session(&self, address: &Address) -> (r: bool) {
        proof {
            lemma_map_of_contains(self.log(), address.key());
        }
        match self.find(address.bytes(), address.device_id()) {
            Some(i) => {
                assert(self.log()[i as int].0 == address.key());
                true
            },
            None => false,
        }
    }

    fn delete_session(&mut self, address: &Address) -> (r: Result<(), InternalError>)
        ensures
            r is Ok,
    {
        self.drop_records(address.bytes(), Some(address.device_id()));
        proof {
            lemma_drop_key(old(self).log(), address.key());
        }
        Ok(())
    }

    fn delete_all_sessions(&mut self, name: &[u8]) -> (r: Result<(), InternalError>)
        ensures
            r is Ok,
    {
        self.drop_records(name, None);
        proof {
            lemma_drop_name(old(self).log(), name@);
        }
        Ok(())
    }
}

} // verus!
