//! A single-assignment cache slot with single-flight fetch semantics.
//!
//! A slot starts `Empty`. The first requester becomes the fetcher and the slot
//! turns `Pending`; everyone who asks while it is pending is queued as a
//! waiter. When the fetcher reports a value the slot turns `Ready` and stays
//! so for good; when it reports a failure the slot falls back to `Empty`, so
//! that a later requester fetches again.

use vstd::prelude::*;

verus! {

/// What a requester has to do after asking a slot for its value.
#[derive(Clone, Copy, PartialEq, Eq, Debug, Structural)]
pub enum Claim {
    /// The requester is the fetcher: it runs the fetch and reports the outcome.
    Fetch,
    /// A fetch is in flight: the requester waits until it is woken.
    Wait,
    /// The value is there: the requester reads it.
    Ready,
}

/// The slot itself. Requesters are told apart by a number of the caller's
/// choosing.
pub enum Slot<T> {
    Empty,
    Pending { fetcher: u64, waiters: Vec<u64> },
    Ready { value: T },
}

/// Mathematical model of a [`Slot`].
pub enum SlotState<T> {
    Empty,
    Pending { fetcher: u64, waiters: Seq<u64> },
    Ready { value: T },
}

impl<T> SlotState<T> {
    /// State and claim after `who` asks for the value.
    pub open spec fn request(self, who: u64) -> (SlotState<T>, Claim) {
        match self {
            SlotState::Empty => (
                SlotState::Pending { fetcher: who, waiters: Seq::empty() },
                Claim::Fetch,
            ),
            SlotState::Pending { fetcher, waiters } => (
                SlotState::Pending { fetcher, waiters: waiters.push(who) },
                Claim::Wait,
            ),
            SlotState::Ready { value } => (self, Claim::Ready),
        }
    }

    /// `who` is the requester whose fetch is in flight.
    pub open spec fn fetched_by(self, who: u64) -> bool {
        self matches SlotState::Pending { fetcher, .. } && fetcher == who
    }

    /// The requesters queued behind the fetch in flight, oldest first.
    pub open spec fn waiting(self) -> Seq<u64> {
        match self {
            SlotState::Pending { waiters, .. } => waiters,
            _ => Seq::empty(),
        }
    }

    /// State after `who` reports the outcome of its fetch (`None`: it failed).
    /// A report from anyone but the fetcher in flight changes nothing.
    pub open spec fn complete(self, who: u64, outcome: Option<T>) -> SlotState<T> {
        if self.fetched_by(who) {
            match outcome {
                Some(value) => SlotState::Ready { value },
                None => SlotState::Empty,
            }
        } else {
            self
        }
    }

    /// The requesters that a report by `who` wakes.
    pub open spec fn woken_by(self, who: u64) -> Seq<u64> {
        if self.fetched_by(who) {
            self.waiting()
        } else {
            Seq::empty()
        }
    }

    /// State after `who` gives up its fetch without an outcome: the oldest
    /// waiter takes the fetch over, and with no waiter the slot is `Empty`.
    pub open spec fn abandon(self, who: u64) -> SlotState<T> {
        if self.fetched_by(who) {
            if self.waiting().len() == 0 {
                SlotState::Empty
            } else {
                SlotState::Pending { fetcher: self.waiting()[0], waiters: self.waiting().skip(1) }
            }
        } else {
            self
        }
    }

    /// The requester that takes the fetch over when `who` gives it up.
    pub open spec fn heir_of(self, who: u64) -> Option<u64> {
        if self.fetched_by(who) && self.waiting().len() > 0 {
            Some(self.waiting()[0])
        } else {
            None
        }
    }

    /// State after the requesters `whos` have asked one after the other.
    pub open spec fn request_all(self, whos: Seq<u64>) -> SlotState<T>
        decreases whos.len(),
    {
        if whos.len() == 0 {
            self
        } else {
            self.request_all(whos.drop_last()).request(whos.last()).0
        }
    }

    /// The claims that the requesters `whos` got, in the order they asked.
    pub open spec fn claims(self, whos: Seq<u64>) -> Seq<Claim>
        decreases whos.len(),
    {
        if whos.len() == 0 {
            Seq::empty()
        } else {
            self.claims(whos.drop_last()).push(
                self.request_all(whos.drop_last()).request(whos.last()).1,
            )
        }
    }
}

impl<T> View for Slot<T> {
    type V = SlotState<T>;

    open spec fn view(&self) -> SlotState<T> {
        match *self {
            Slot::Empty => SlotState::Empty,
            Slot::Pending { fetcher, waiters } => SlotState::Pending { fetcher, waiters: waiters@ },
            Slot::Ready { value } => SlotState::Ready { value },
        }
    }
}

impl<T> Slot<T> {
    /// A slot that nobody has asked yet.
    pub fn new() -> (slot: Self)
        ensures
            slot@ == SlotState::<T>::Empty,
    {
        Slot::Empty
    }

    /// `who` asks for the value. The first to ask an empty slot is told to
    /// fetch; whoever asks during the fetch is queued and told to wait; once
    /// the value is there everyone is told to read it.
    pub fn request(&mut self, who: u64) -> (claim: Claim)
        ensures
            final(self)@ == old(self)@.request(who).0,
            claim == old(self)@.request(who).1,
    {
        let mut cur = Slot::Empty;
        core::mem::swap(self, &mut cur);
        match cur {
            Slot::Empty => {
                *self = Slot::Pending { fetcher: who, waiters: Vec::new() };
                Claim::Fetch
            },
            Slot::Pending { fetcher, mut waiters } => {
                waiters.push(who);
                *self = Slot::Pending { fetcher, waiters };
                Claim::Wait
            },
            Slot::Ready { value } => {
                *self = Slot::Ready { value };
                Claim::Ready
            },
        }
    }

    /// The value, once the slot is ready.
    pub fn value(&self) -> (value: Option<&T>)
        ensures
            match self@ {
                SlotState::Ready { value: v } => value == Some(&v),
                _ => value.is_none(),
            },
    {
        match self {
            Slot::Ready { value } => Some(value),
            _ => None,
        }
    }

    /// `who` reports the outcome of its fetch: `Some` with the value, `None`
    /// for a failure. Returns the waiters to wake, oldest first. Only the
    /// report of the fetcher in flight counts: a value is assigned at most
    /// once, and a failure leaves no trace, so the next requester retries.
    pub fn complete(&mut self, who: u64, outcome: Option<T>) -> (woken: Vec<u64>)
        ensures
            final(self)@ == old(self)@.complete(who, outcome),
            woken@ == old(self)@.woken_by(who),
    {
        let mut cur = Slot::Empty;
        core::mem::swap(self, &mut cur);
        match cur {
            Slot::Pending { fetcher, waiters } => {
                if fetcher == who {
                    match outcome {
                        Some(value) => {
                            *self = Slot::Ready { value };
                        },
                        None => {},
                    }
                    waiters
                } else {
                    *self = Slot::Pending { fetcher, waiters };
                    Vec::new()
                }
            },
            other => {
                *self = other;
                Vec::new()
            },
        }
    }

    /// `who` gives up its fetch without an outcome (its partition was
    /// cancelled). The oldest waiter, if any, is returned: it takes the fetch
    /// over, so that a cancelled partition never strands the others.
    pub fn abandon(&mut self, who: u64) -> (heir: Option<u64>)
        ensures
            final(self)@ == old(self)@.abandon(who),
            heir == old(self)@.heir_of(who),
    {
        let mut cur = Slot::Empty;
        core::mem::swap(self, &mut cur);
        match cur {
            Slot::Pending { fetcher, mut waiters } => {
                if fetcher == who {
                    if waiters.len() == 0 {
                        None
                    } else {
                        let first = waiters.remove(0);
                        assert(waiters@ == old(self)@.waiting().skip(1));
                        *self = Slot::Pending { fetcher: first, waiters };
                        Some(first)
                    }
                } else {
                    *self = Slot::Pending { fetcher, waiters };
                    None
                }
            },
            other => {
                *self = other;
                None
            },
        }
    }
}

/// Single flight: when any number of requesters ask an empty slot before the
/// fetch is over, exactly the first is told to fetch and all the others are
/// told to wait, in a queue that keeps their order.
pub proof fn lemma_single_flight<T>(whos: Seq<u64>)
    requires
        whos.len() > 0,
    ensures
        SlotState::<T>::Empty.request_all(whos) == (SlotState::<T>::Pending {
            fetcher: whos[0],
            waiters: whos.skip(1),
        }),
        SlotState::<T>::Empty.claims(whos).len() == whos.len(),
        SlotState::<T>::Empty.claims(whos)[0] == Claim::Fetch,
        forall|i: int| 1 <= i < whos.len() ==> SlotState::<T>::Empty.claims(whos)[i] == Claim::Wait,
    decreases whos.len(),
{
    let empty = SlotState::<T>::Empty;
    if whos.len() == 1 {
        assert(whos.drop_last().len() == 0);
        assert(empty.request_all(whos.drop_last()) == empty);
        assert(empty.claims(whos.drop_last()) =~= Seq::<Claim>::empty());
        assert(whos.skip(1) =~= Seq::<u64>::empty());
    } else {
        let init = whos.drop_last();
        lemma_single_flight::<T>(init);
        assert(init[0] == whos[0]);
        assert(init.skip(1).push(whos.last()) =~= whos.skip(1));
    }
}

/// Shared result: when the fetcher reports a value, the slot is ready with
/// exactly that value, every waiter is woken, and whoever asks from then on
/// is handed the same value with no further fetch.
pub proof fn lemma_fetch_is_shared<T>(whos: Seq<u64>, value: T, later: u64)
    requires
        whos.len() > 0,
    ensures
        ({
            let pending = SlotState::<T>::Empty.request_all(whos);
            let done = pending.complete(whos[0], Some(value));
            &&& done == (SlotState::Ready { value })
            &&& pending.woken_by(whos[0]) == whos.skip(1)
            &&& done.request(later) == (done, Claim::Ready)
        }),
{
    lemma_single_flight::<T>(whos);
}

/// Single assignment: a ready slot never changes, whatever is asked of it or
/// reported to it.
pub proof fn lemma_ready_is_final<T>(value: T, who: u64, outcome: Option<T>)
    ensures
        ({
            let ready = SlotState::Ready { value };
            &&& ready.request(who).0 == ready
            &&& ready.complete(who, outcome) == ready
            &&& ready.abandon(who) == ready
            &&& ready.woken_by(who) == Seq::<u64>::empty()
        }),
{
}

/// Retry after failure: a failed fetch leaves the slot empty, and the next
/// requester is told to fetch.
pub proof fn lemma_failure_allows_retry<T>(whos: Seq<u64>, next: u64)
    requires
        whos.len() > 0,
    ensures
        ({
            let failed = SlotState::<T>::Empty.request_all(whos).complete(whos[0], None);
            &&& failed == SlotState::<T>::Empty
            &&& failed.request(next).1 == Claim::Fetch
        }),
{
    lemma_single_flight::<T>(whos);
}

} // verus!
