//! The rendezvous of speculative prefetching: one fetch per candidate runs
//! concurrently, completions arrive in any order, and the consumer waits
//! only for the candidate it selected. This module holds the bookkeeping;
//! the caller runs the tasks and the channel and reports each event here.
use vstd::prelude::*;

verus! {

/// Where the wait for one candidate stands.
#[derive(Debug, Clone, Copy, PartialEq, Eq, Structural)]
pub enum Wait {
    /// Its outcome has arrived.
    Ready,
    /// Its outcome has not arrived yet, and still may.
    Pending,
    /// Its outcome never will: every producer is done, or no producer has
    /// that index.
    Missing,
}

/// The outcomes that have arrived, keyed by candidate index, and whether
/// every producer is done.
pub struct Rendezvous<T> {
    slots: Vec<Option<T>>,
    closed: bool,
}

/// The mathematical value of a [`Rendezvous`].
pub ghost struct RendezvousView<T> {
    pub slots: Seq<Option<T>>,
    pub closed: bool,
}

impl<T> View for Rendezvous<T> {
    type V = RendezvousView<T>;

    closed spec fn view(&self) -> RendezvousView<T> {
        RendezvousView { slots: self.slots@, closed: self.closed }
    }
}

/// The slots after the outcome `v` of candidate `i` arrives: it is kept
/// only if `i` is a candidate whose outcome has not arrived before.
pub open spec fn arrived<T>(slots: Seq<Option<T>>, i: usize, v: T) -> Seq<Option<T>> {
    if i < slots.len() && slots[i as int] is None {
        slots.update(i as int, Some(v))
    } else {
        slots
    }
}

/// The slots of `count` candidates before any outcome has arrived.
pub open spec fn no_arrivals<T>(count: nat) -> Seq<Option<T>> {
    Seq::new(count, |i: int| None::<T>)
}

/// Where the wait for candidate `i` stands.
pub open spec fn wait_of<T>(r: RendezvousView<T>, i: usize) -> Wait {
    if i < r.slots.len() && r.slots[i as int] is Some {
        Wait::Ready
    } else if r.closed || i >= r.slots.len() {
        Wait::Missing
    } else {
        Wait::Pending
    }
}

impl<T> Rendezvous<T> {
    /// A rendezvous for `count` candidates, before any outcome has arrived.
    pub fn new(count: usize) -> (r: Rendezvous<T>)
        ensures
            r@.slots == no_arrivals::<T>(count as nat),
            !r@.closed,
    {
        let mut slots: Vec<Option<T>> = Vec::new();
        for i in 0..count
            invariant
                slots@ == Seq::new(i as nat, |j: int| None::<T>),
        {
            slots.push(None);
            assert(slots@ =~= Seq::new((i + 1) as nat, |j: int| None::<T>));
        }
        Rendezvous { slots, closed: false }
    }

    /// Records the outcome of candidate `index`. An outcome for an index
    /// that is not a candidate, or that has already arrived, is discarded.
    pub fn deliver(&mut self, index: usize, outcome: T)
        ensures
            final(self)@.slots == arrived(old(self)@.slots, index, outcome),
            final(self)@.closed == old(self)@.closed,
    {
        if index < self.slots.len() && self.slots[index].is_none() {
            self.slots.set(index, Some(outcome));
        }
    }

    /// Records that every producer is done.
    pub fn close(&mut self)
        ensures
            final(self)@.slots == old(self)@.slots,
            final(self)@.closed,
    {
        self.closed = true;
    }

    /// Where the wait for candidate `index` stands.
    pub fn status(&self, index: usize) -> (r: Wait)
        ensures
            r == wait_of(self@, index),
    {
        if index < self.slots.len() && self.slots[index].is_some() {
            Wait::Ready
        } else if self.closed || index >= self.slots.len() {
            Wait::Missing
        } else {
            Wait::Pending
        }
    }

    /// The outcome of candidate `index`, if it has arrived. Reading it
    /// again gives it again.
    pub fn get(&self, index: usize) -> (r: Option<&T>)
        ensures
            match r {
                Some(v) => index < self@.slots.len() && self@.slots[index as int] == Some(*v),
                None => index >= self@.slots.len() || self@.slots[index as int] is None,
            },
    {
        if index < self.slots.len() {
            self.slots[index].as_ref()
        } else {
            None
        }
    }

    /// Takes in one event of the channel while waiting for candidate
    /// `selected`: an outcome that arrived, or `None` when every producer is
    /// done. Returns where the wait stands afterwards.
    pub fn step(&mut self, selected: usize, event: Option<(usize, T)>) -> (r: Wait)
        ensures
            match event {
                Some((i, v)) => final(self)@ == (RendezvousView {
                    slots: arrived(old(self)@.slots, i, v),
                    closed: old(self)@.closed,
                }),
                None => final(self)@ == (RendezvousView { slots: old(self)@.slots, closed: true }),
            },
            r == wait_of(final(self)@, selected),
    {
        match event {
            Some((i, v)) => self.deliver(i, v),
            None => self.close(),
        }
        self.status(selected)
    }
}

} // verus!

verus! {

/// The slots after the outcomes `events` arrive, in order.
pub open spec fn arrived_all<T>(slots: Seq<Option<T>>, events: Seq<(usize, T)>) -> Seq<Option<T>>
    decreases events.len(),
{
    if events.len() == 0 {
        slots
    } else {
        let (i, v) = events.last();
        arrived(arrived_all(slots, events.drop_last()), i, v)
    }
}

/// The first outcome for candidate `i` among `events`, if there is one.
pub open spec fn first_for<T>(events: Seq<(usize, T)>, i: usize) -> Option<T>
    decreases events.len(),
{
    if events.len() == 0 {
        None
    } else if first_for(events.drop_last(), i) is Some {
        first_for(events.drop_last(), i)
    } else if events.last().0 == i {
        Some(events.last().1)
    } else {
        None
    }
}

/// Whatever the order in which outcomes arrive, once those of `events`
/// have arrived, each candidate holds the first outcome that arrived for
/// it, and nothing if none did: what the consumer reads for its selection
/// depends on that candidate's own outcome alone, however the others are
/// interleaved with it. A failed fetch is read back as the failure it
/// reported, and once every producer is done no wait is left pending.
pub proof fn lemma_first_arrival_wins<T>(count: nat, events: Seq<(usize, T)>)
    ensures
        arrived_all(no_arrivals::<T>(count), events).len() == count,
        forall|i: usize|
            i < count ==> arrived_all(no_arrivals::<T>(count), events)[i as int] == #[trigger] first_for(
                events,
                i,
            ),
        forall|r: RendezvousView<T>, i: usize| r.closed ==> #[trigger] wait_of(r, i) != Wait::Pending,
    decreases events.len(),
{
    let empty = no_arrivals::<T>(count);
    if events.len() > 0 {
        lemma_first_arrival_wins(count, events.drop_last());
        let prev = arrived_all(empty, events.drop_last());
        assert forall|i: usize| i < count implies arrived_all(empty, events)[i as int]
            == #[trigger] first_for(events, i) by {
            assert(prev[i as int] == first_for(events.drop_last(), i));
        }
    }
}

} // verus!
