//! The footer cache: a bounded table from file identity to cache slot.
//!
//! The table keeps its entries in the order they were inserted. A lookup scans
//! it by location; a miss on a full table evicts the oldest entry before the
//! new one is appended. The table only does the bookkeeping: what a slot is,
//! and how a fetch in flight is shared, is the slot's own business.

use vstd::prelude::*;

verus! {

/// Number of entries that a cache holds unless told otherwise.
pub const DEFAULT_CAPACITY: usize = 5;

/// One entry of the table, as contracts see it: the file's location and the
/// slot reserved for it.
pub type Entry<S> = (Seq<char>, S);

/// Some entry of `entries` is for `location`.
pub open spec fn holds<S>(entries: Seq<Entry<S>>, location: Seq<char>) -> bool {
    exists|i: int| 0 <= i < entries.len() && (#[trigger] entries[i]).0 == location
}

/// No two entries of `entries` are for the same location.
pub open spec fn distinct_locations<S>(entries: Seq<Entry<S>>) -> bool {
    forall|i: int, j: int|
        0 <= i < j < entries.len() ==> (#[trigger] entries[i]).0 != (#[trigger] entries[j]).0
}

/// The table after `entry` is inserted into a table that does not hold its
/// location: the oldest entry makes room when the table is full.
pub open spec fn after_miss<S>(entries: Seq<Entry<S>>, capacity: nat, entry: Entry<S>) -> Seq<
    Entry<S>,
> {
    if entries.len() >= capacity {
        entries.skip(1).push(entry)
    } else {
        entries.push(entry)
    }
}

/// The table after a request for the location of `entry`, which brings the
/// slot to reserve in case of a miss. A hit changes nothing.
pub open spec fn after_request<S>(entries: Seq<Entry<S>>, capacity: nat, entry: Entry<S>) -> Seq<
    Entry<S>,
> {
    if holds(entries, entry.0) {
        entries
    } else {
        after_miss(entries, capacity, entry)
    }
}

/// The table after the requests `requests`, one after the other.
pub open spec fn after_requests<S>(
    entries: Seq<Entry<S>>,
    capacity: nat,
    requests: Seq<Entry<S>>,
) -> Seq<Entry<S>>
    decreases requests.len(),
{
    if requests.len() == 0 {
        entries
    } else {
        after_request(
            after_requests(entries, capacity, requests.drop_last()),
            capacity,
            requests.last(),
        )
    }
}

/// Outcome of a request to the table. Either way `index` is where the slot
/// for the requested location now stands.
#[derive(Clone, Copy, PartialEq, Eq, Debug, Structural)]
pub enum Lookup {
    /// The location was in the table; nothing changed.
    Hit { index: usize },
    /// The location was not in the table; the slot brought along was reserved.
    Miss { index: usize },
}

impl Lookup {
    /// Where the slot stands.
    pub open spec fn spec_index(self) -> usize {
        match self {
            Lookup::Hit { index } => index,
            Lookup::Miss { index } => index,
        }
    }

    #[verifier::when_used_as_spec(spec_index)]
    pub fn index(self) -> (index: usize)
        ensures
            index == self.spec_index(),
    {
        match self {
            Lookup::Hit { index } => index,
            Lookup::Miss { index } => index,
        }
    }
}

struct CacheEntry<S> {
    location: String,
    slot: S,
}

/// The bounded table. `S` is the caller's handle to a slot.
pub struct MetadataCache<S> {
    capacity: usize,
    table: Vec<CacheEntry<S>>,
}

/// Mathematical model of a [`MetadataCache`].
pub struct CacheState<S> {
    /// The bound on the number of entries.
    pub capacity: usize,
    /// The entries, oldest first.
    pub entries: Seq<Entry<S>>,
}

impl<S> CacheState<S> {
    /// The table is within its bound, which is at least one, and holds no
    /// location twice.
    pub open spec fn wf(self) -> bool {
        &&& self.capacity >= 1
        &&& self.entries.len() <= self.capacity
        &&& distinct_locations(self.entries)
    }
}

impl<S> View for MetadataCache<S> {
    type V = CacheState<S>;

    closed spec fn view(&self) -> CacheState<S> {
        CacheState {
            capacity: self.capacity,
            entries: Seq::new(
                self.table@.len(),
                |i: int| (self.table@[i].location@, self.table@[i].slot),
            ),
        }
    }
}

impl<S> MetadataCache<S> {
    /// The bound on the number of entries.
    pub open spec fn spec_capacity(&self) -> usize {
        self@.capacity
    }

    /// The cache is well formed, as every cache is.
    pub open spec fn wf(&self) -> bool {
        self@.wf()
    }

    #[verifier::type_invariant]
    spec fn inv(self) -> bool {
        self.wf()
    }

    /// An empty cache of the default capacity.
    pub fn new() -> (cache: Self)
        ensures
            cache.wf(),
            cache@.entries.len() == 0,
            cache.spec_capacity() == DEFAULT_CAPACITY,
    {
        MetadataCache { capacity: DEFAULT_CAPACITY, table: Vec::new() }
    }

    /// An empty cache that holds up to `capacity` entries. There is no cache
    /// of capacity zero: it could not hold the slot it has just handed out.
    pub fn with_capacity(capacity: usize) -> (cache: Option<Self>)
        ensures
            capacity == 0 <==> cache.is_none(),
            cache matches Some(c) ==> c.wf() && c@.entries.len() == 0 && c.spec_capacity() == capacity,
    {
        if capacity == 0 {
            None
        } else {
            Some(MetadataCache { capacity, table: Vec::new() })
        }
    }

    #[verifier::when_used_as_spec(spec_capacity)]
    pub fn capacity(&self) -> (capacity: usize)
        ensures
            capacity == self.spec_capacity(),
            self.wf(),
    {
        proof {
            use_type_invariant(self);
        }
        self.capacity
    }

    /// Number of entries in the table.
    pub fn len(&self) -> (len: usize)
        ensures
            len == self@.entries.len(),
            len <= self.spec_capacity(),
    {
        proof {
            use_type_invariant(self);
        }
        self.table.len()
    }

    /// Position of the entry for `location`, if the table holds one.
    pub fn find(&self, location: &String) -> (found: Option<usize>)
        ensures
            found.is_some() <==> holds(self@.entries, location@),
            found matches Some(index) ==> index < self@.entries.len() && self@.entries[index as int].0
                == location@,
    {
        let mut i: usize = 0;
        while i < self.table.len()
            invariant
                i <= self.table@.len(),
                forall|j: int| 0 <= j < i ==> (#[trigger] self@.entries[j]).0 != location@,
            decreases self.table@.len() - i,
        {
            if self.table[i].location == *location {
                assert(self@.entries[i as int].0 == location@);
                return Some(i);
            }
            i += 1;
        }
        None
    }

    /// Location of the entry at `index`.
    pub fn location(&self, index: usize) -> (location: &String)
        requires
            index < self@.entries.len(),
        ensures
            location@ == self@.entries[index as int].0,
    {
        &self.table[index].location
    }

    /// Slot of the entry at `index`.
    pub fn slot(&self, index: usize) -> (slot: &S)
        requires
            index < self@.entries.len(),
        ensures
            *slot == self@.entries[index as int].1,
    {
        &self.table[index].slot
    }

    /// Looks `location` up and, on a miss, reserves `fresh` for it.
    ///
    /// A hit leaves the table as it is and drops `fresh`. A miss appends the
    /// new entry, after evicting the oldest one if the table is full. No
    /// storage is touched either way.
    pub fn get_or_reserve(&mut self, location: String, fresh: S) -> (found: Lookup)
        ensures
            final(self).wf(),
            final(self).spec_capacity() == old(self).spec_capacity(),
            final(self)@.entries == after_request(
                old(self)@.entries,
                old(self).spec_capacity() as nat,
                (location@, fresh),
            ),
            found is Hit <==> holds(old(self)@.entries, location@),
            found.spec_index() < final(self)@.entries.len(),
            final(self)@.entries[found.spec_index() as int].0 == location@,
            found is Miss ==> found.spec_index() == final(self)@.entries.len() - 1,
    {
        proof {
            use_type_invariant(&*self);
        }
        match self.find(&location) {
            Some(index) => Lookup::Hit { index },
            None => {
                let mut table: Vec<CacheEntry<S>> = Vec::new();
                core::mem::swap(&mut self.table, &mut table);
                if table.len() >= self.capacity {
                    table.remove(0);
                }
                table.push(CacheEntry { location, slot: fresh });
                proof {
                    let before = old(self)@.entries;
                    let after = Seq::new(
                        table@.len(),
                        |i: int| (table@[i].location@, table@[i].slot),
                    );
                    assert(after =~= after_miss(
                        before,
                        old(self).spec_capacity() as nat,
                        (location@, fresh),
                    ));
                    assert forall|i: int, j: int| 0 <= i < j < after.len() implies (
                    #[trigger] after[i]).0 != (#[trigger] after[j]).0 by {
                        let shift = before.len() + 1 - after.len();
                        assert(after[i] == before[i + shift]);
                        if j < after.len() - 1 {
                            assert(after[j] == before[j + shift]);
                        } else {
                            assert(after[j].0 == location@);
                        }
                    }
                }
                self.table = table;
                Lookup::Miss { index: self.table.len() - 1 }
            },
        }
    }
}

/// Bounded, oldest out first: after any run of requests for locations that
/// are new and pairwise distinct, the table is within its capacity and holds
/// exactly the newest entries, in the order they came.
pub proof fn lemma_cache_keeps_newest<S>(
    entries: Seq<Entry<S>>,
    capacity: nat,
    requests: Seq<Entry<S>>,
)
    requires
        capacity >= 1,
        entries.len() <= capacity,
        distinct_locations(entries + requests),
    ensures
        after_requests(entries, capacity, requests).len() <= capacity,
        after_requests(entries, capacity, requests) == (entries + requests).skip(
            if (entries + requests).len() > capacity {
                (entries + requests).len() - capacity
            } else {
                0
            },
        ),
    decreases requests.len(),
{
    let all = entries + requests;
    if requests.len() == 0 {
        assert(all =~= entries);
        assert(all.skip(0) =~= entries);
    } else {
        let init = requests.drop_last();
        let last = requests.last();
        let before_all = entries + init;
        assert(before_all =~= all.drop_last());
        assert(distinct_locations(before_all)) by {
            assert forall|i: int, j: int| 0 <= i < j < before_all.len() implies (
            #[trigger] before_all[i]).0 != (#[trigger] before_all[j]).0 by {
                assert(before_all[i] == all[i]);
                assert(before_all[j] == all[j]);
            }
        }
        lemma_cache_keeps_newest(entries, capacity, init);
        let before = after_requests(entries, capacity, init);
        let cut: int = if before_all.len() > capacity {
            before_all.len() - capacity
        } else {
            0
        };
        assert(before == before_all.skip(cut));
        assert(!holds(before, last.0)) by {
            assert forall|i: int| 0 <= i < before.len() implies (#[trigger] before[i]).0
                != last.0 by {
                assert(before[i] == all[i + cut]);
                assert(all[all.len() - 1] == last);
            }
        }
        let after = after_miss(before, capacity, last);
        assert(after_requests(entries, capacity, requests) == after);
        let new_cut: int = if all.len() > capacity {
            all.len() - capacity
        } else {
            0
        };
        assert(after =~= all.skip(new_cut));
    }
}

/// No growth, ever: a request never takes a table beyond its capacity,
/// whether it hits or misses.
pub proof fn lemma_request_stays_bounded<S>(
    entries: Seq<Entry<S>>,
    capacity: nat,
    entry: Entry<S>,
)
    requires
        capacity >= 1,
        entries.len() <= capacity,
    ensures
        after_request(entries, capacity, entry).len() <= capacity,
{
}

} // verus!
