//! Pre-key numbering, the single-pass list of generated pre-keys, and
//! signed-pre-key timestamps.
use vstd::prelude::*;
use std::collections::VecDeque;

use crate::errors::Error;
use vstd::arithmetic::div_mod::{lemma_add_mod_noop, lemma_small_mod};

verus! {

/// Largest pre-key id; ids run from 1 up to one below it and then wrap to 1.
pub const PRE_KEY_MEDIUM_MAX_VALUE: u32 = 0xFFFFFF;

/// The id of the `i`-th pre-key generated from `start`: ids count up from
/// `start` in unsigned 32-bit arithmetic and wrap within `1 ..= 0xFFFFFE`.
pub open spec fn pre_key_id(start: u32, i: int) -> int {
    ((start as int + 0xFFFFFFFF + i) % 0x1_0000_0000) % (PRE_KEY_MEDIUM_MAX_VALUE - 1) + 1
}

/// The ids that a run of `count` pre-keys from `start` receives, in order.
pub fn pre_key_ids(start: u32, count: u32) -> (r: Vec<u32>)
    ensures
        r@.len() == count,
        forall|i: int| 0 <= i < count ==> r@[i] == pre_key_id(start, i),
{
    let mut ids: Vec<u32> = Vec::new();
    let mut i: u32 = 0;
    while i < count
        invariant
            i <= count,
            ids@.len() == i,
            forall|j: int| 0 <= j < i ==> ids@[j] == pre_key_id(start, j),
        decreases count - i,
    {
        let wrapped: u64 = (start as u64 + 0xFFFFFFFF + i as u64) % 0x1_0000_0000;
        let id: u64 = wrapped % (PRE_KEY_MEDIUM_MAX_VALUE as u64 - 1) + 1;
        ids.push(id as u32);
        i = i + 1;
    }
    ids
}

/// Away from the wrap-around point, the ids of a run are consecutive: `start`,
/// `start + 1`, ..., `start + count - 1`.
pub proof fn lemma_pre_key_ids_consecutive(start: u32, count: u32, i: int)
    requires
        1 <= start,
        start as int + count as int - 1 < PRE_KEY_MEDIUM_MAX_VALUE as int,
        0 <= i < count,
    ensures
        pre_key_id(start, i) == start + i,
{
    let x = start as int + 0xFFFFFFFF + i;
    assert(x % 0x1_0000_0000 == start - 1 + i);
    assert((start - 1 + i) % (PRE_KEY_MEDIUM_MAX_VALUE - 1) == start - 1 + i);
}

/// A pre-key as the list hands it out: its id and the generated key.
pub struct PreKey<T> {
    pub id: u32,
    pub key: T,
}

/// The pre-keys of one generation run. It is walked once, front to back; each
/// key leaves the list as it is handed out, so a finished walk leaves it empty.
pub struct PreKeyList<T> {
    entries: VecDeque<PreKey<T>>,
}

impl<T> PreKeyList<T> {
    /// What is still to be handed out, in order.
    pub closed spec fn remaining(&self) -> Seq<PreKey<T>> {
        self.entries@
    }

    /// Takes the pre-keys of a run from `start` in the order the engine listed
    /// them, each with the id the engine gave it. The list is accepted exactly
    /// when those ids are the run's ids in order; otherwise the engine broke its
    /// numbering and the result is `UnexpectedPreKeyId`.
    pub fn new(start: u32, entries: Vec<PreKey<T>>) -> (r: Result<PreKeyList<T>, Error>)
        ensures
            (forall|i: int| 0 <= i < entries@.len() ==> (#[trigger] entries@[i]).id == pre_key_id(start, i))
                ==> (r matches Ok(l) && l.remaining() == entries@),
            !(forall|i: int| 0 <= i < entries@.len() ==> (#[trigger] entries@[i]).id == pre_key_id(start, i))
                ==> r == Err::<PreKeyList<T>, Error>(Error::UnexpectedPreKeyId),
    {
        let mut i: usize = 0;
        // the id counter before reduction, kept modulo 2^32
        let mut wrapped: u64 = (start as u64 + 0xFFFFFFFF) % 0x1_0000_0000;
        while i < entries.len()
            invariant
                0 <= i <= entries@.len(),
                wrapped == (start as int + 0xFFFFFFFF + i) % 0x1_0000_0000,
                forall|j: int| 0 <= j < i ==> (#[trigger] entries@[j]).id == pre_key_id(start, j),
            decreases entries@.len() - i,
        {
            let id: u64 = wrapped % (PRE_KEY_MEDIUM_MAX_VALUE as u64 - 1) + 1;
            if entries[i].id as u64 != id {
                return Err(Error::UnexpectedPreKeyId);
            }
            proof {
                lemma_add_mod_noop(start as int + 0xFFFFFFFF + i, 1, 0x1_0000_0000);
                lemma_small_mod(1, 0x1_0000_0000);
            }
            wrapped = (wrapped + 1) % 0x1_0000_0000;
            i = i + 1;
        }
        let mut queue: VecDeque<PreKey<T>> = VecDeque::new();
        let mut rest = entries;
        let ghost all = rest@;
        // entries are taken from the back, so they are put in at the front
        while rest.len() > 0
            invariant
                rest@.len() <= all.len(),
                rest@ == all.subrange(0, rest@.len() as int),
                queue@ == all.subrange(rest@.len() as int, all.len() as int),
            decreases rest@.len(),
        {
            let ghost before = rest@;
            let e = rest.pop().unwrap();
            assert(e == before[rest@.len() as int]);
            assert(e == all[rest@.len() as int]);
            queue.push_front(e);
            assert(queue@ =~= all.subrange(rest@.len() as int, all.len() as int));
        }
        assert(queue@ =~= all);
        Ok(PreKeyList { entries: queue })
    }

    /// Hands out the next pre-key, or `None` once the list is used up.
    pub fn next(&mut self) -> (r: Option<PreKey<T>>)
        ensures
            match r {
                Some(k) => {
                    &&& old(self).remaining().len() > 0
                    &&& k == old(self).remaining()[0]
                    &&& final(self).remaining() == old(self).remaining().drop_first()
                },
                None => {
                    &&& old(self).remaining().len() == 0
                    &&& final(self).remaining() == old(self).remaining()
                },
            },
    {
        self.entries.pop_front()
    }

    /// Number of pre-keys not yet handed out.
    pub fn len(&self) -> (r: usize)
        ensures
            r == self.remaining().len(),
    {
        self.entries.len()
    }
}

/// A point in time as whole seconds from the epoch (negative before it) and
/// the nanoseconds past that second.
pub struct Timestamp {
    pub secs: i64,
    pub nanos: u32,
}

impl Timestamp {
    /// The whole seconds since the epoch, dropping the sub-second part; a time
    /// before the epoch has none.
    pub fn unix_seconds(&self) -> (r: Result<u64, Error>)
        ensures
            self.secs >= 0 ==> r == Ok::<u64, Error>(self.secs as u64),
            self.secs < 0 ==> r == Err::<u64, Error>(Error::TimestampBeforeEpoch),
    {
        if self.secs < 0 {
            Err(Error::TimestampBeforeEpoch)
        } else {
            Ok(self.secs as u64)
        }
    }
}

} // verus!
