//! The store handle and its life cycle.

use vstd::prelude::*;
use crate::error::GatewayError;

verus! {

/// Where the store handle stands. It starts uninitialized, is set up once,
/// and is ready from then on; only a ready handle serves calls.
#[derive(Clone, Copy, Debug, PartialEq, Eq, Structural)]
pub enum StoreState {
    Uninitialized,
    Initializing,
    Ready,
}

/// What can happen to the handle.
#[derive(Clone, Copy, Debug, PartialEq, Eq, Structural)]
pub enum SetupEvent {
    /// The one-time setup began.
    Started,
    /// Setup ended with a connection pool.
    Succeeded,
    /// Setup ended without one.
    Failed,
}

impl StoreState {
    /// The state after an event. Setup starts from the uninitialized state
    /// only and ends from the initializing state only; any other event leaves
    /// the state as it is. A failed setup leaves the handle uninitialized.
    pub open spec fn after(self, event: SetupEvent) -> StoreState {
        match (self, event) {
            (StoreState::Uninitialized, SetupEvent::Started) => StoreState::Initializing,
            (StoreState::Initializing, SetupEvent::Succeeded) => StoreState::Ready,
            (StoreState::Initializing, SetupEvent::Failed) => StoreState::Uninitialized,
            _ => self,
        }
    }

    /// The state after a run of events, the first of them first.
    pub open spec fn after_all(self, events: Seq<SetupEvent>) -> StoreState
        decreases events.len(),
    {
        if events.len() == 0 {
            self
        } else {
            self.after_all(events.drop_last()).after(events.last())
        }
    }
}

/// The store handle: the place of a connection pool of type `H`, which is
/// there once setup has succeeded and not before.
#[derive(Debug, PartialEq)]
pub enum Store<H> {
    Uninitialized,
    Initializing,
    Ready(H),
}

impl<H> Store<H> {
    /// Where the handle stands.
    pub open spec fn state(&self) -> StoreState {
        match *self {
            Store::Uninitialized => StoreState::Uninitialized,
            Store::Initializing => StoreState::Initializing,
            Store::Ready(_) => StoreState::Ready,
        }
    }

    /// The handle at process start.
    pub fn new() -> (store: Store<H>)
        ensures
            store == Store::<H>::Uninitialized,
    {
        Store::Uninitialized
    }

    /// Where the handle stands.
    pub fn current(&self) -> (state: StoreState)
        ensures
            state == self.state(),
    {
        match self {
            Store::Uninitialized => StoreState::Uninitialized,
            Store::Initializing => StoreState::Initializing,
            Store::Ready(_) => StoreState::Ready,
        }
    }

    /// Whether the handle serves calls.
    pub fn is_ready(&self) -> (ready: bool)
        ensures
            ready == (self.state() == StoreState::Ready),
    {
        match self {
            Store::Ready(_) => true,
            _ => false,
        }
    }

    /// Setup begins. Only an uninitialized handle takes note.
    pub fn started(self) -> (next: Store<H>)
        ensures
            next.state() == self.state().after(SetupEvent::Started),
            self is Ready ==> next == self,
    {
        match self {
            Store::Uninitialized => Store::Initializing,
            other => other,
        }
    }

    /// Setup ends with a pool. An initializing handle becomes ready and holds
    /// it; any other handle stays as it is, and the pool is dropped.
    pub fn succeeded(self, pool: H) -> (next: Store<H>)
        ensures
            next.state() == self.state().after(SetupEvent::Succeeded),
            self is Initializing ==> next == Store::Ready(pool),
            self is Ready ==> next == self,
    {
        match self {
            Store::Initializing => Store::Ready(pool),
            other => other,
        }
    }

    /// Setup ends without a pool. An initializing handle is uninitialized
    /// again; any other handle stays as it is.
    pub fn failed(self) -> (next: Store<H>)
        ensures
            next.state() == self.state().after(SetupEvent::Failed),
            self is Ready ==> next == self,
    {
        match self {
            Store::Initializing => Store::Uninitialized,
            other => other,
        }
    }

    /// The check every call makes first. A ready handle gives its pool; any
    /// other fails the call with [`GatewayError::StoreNotInitialized`], and
    /// the caller is left with nothing to reach the store by.
    pub fn pool(&self) -> (r: Result<&H, GatewayError>)
        ensures
            match r {
                Ok(pool) => *self == Store::Ready(*pool),
                Err(e) => self.state() != StoreState::Ready && e
                    == GatewayError::StoreNotInitialized,
            },
    {
        match self {
            Store::Ready(pool) => Ok(pool),
            _ => Err(GatewayError::StoreNotInitialized),
        }
    }
}

/// A ready handle stays ready, whatever happens.
pub proof fn lemma_ready_is_final(events: Seq<SetupEvent>)
    ensures
        StoreState::Ready.after_all(events) == StoreState::Ready,
    decreases events.len(),
{
    if events.len() > 0 {
        lemma_ready_is_final(events.drop_last());
    }
}

/// A handle becomes ready only through a setup that started and then
/// succeeded.
pub proof fn lemma_ready_needs_setup(events: Seq<SetupEvent>)
    requires
        StoreState::Uninitialized.after_all(events) == StoreState::Ready,
    ensures
        exists|i: int, j: int|
            0 <= i < j < events.len() && events[i] == SetupEvent::Started && events[j]
                == SetupEvent::Succeeded,
    decreases events.len(),
{
    let before = events.drop_last();
    let prior = StoreState::Uninitialized.after_all(before);
    if prior == StoreState::Ready {
        lemma_ready_needs_setup(before);
        let (i, j) = choose|i: int, j: int|
            0 <= i < j < before.len() && before[i] == SetupEvent::Started && before[j]
                == SetupEvent::Succeeded;
        assert(events[i] == SetupEvent::Started && events[j] == SetupEvent::Succeeded);
    } else {
        assert(prior == StoreState::Initializing && events.last() == SetupEvent::Succeeded);
        lemma_initializing_was_started(before);
        let i = choose|i: int| 0 <= i < before.len() && before[i] == SetupEvent::Started;
        assert(events[i] == SetupEvent::Started && events[events.len() - 1]
            == SetupEvent::Succeeded);
    }
}

/// A handle is initializing only after setup started.
proof fn lemma_initializing_was_started(events: Seq<SetupEvent>)
    requires
        StoreState::Uninitialized.after_all(events) == StoreState::Initializing,
    ensures
        exists|i: int| 0 <= i < events.len() && events[i] == SetupEvent::Started,
    decreases events.len(),
{
    let before = events.drop_last();
    let prior = StoreState::Uninitialized.after_all(before);
    if prior == StoreState::Initializing {
        lemma_initializing_was_started(before);
        let i = choose|i: int| 0 <= i < before.len() && before[i] == SetupEvent::Started;
        assert(events[i] == SetupEvent::Started);
    } else {
        assert(events[events.len() - 1] == SetupEvent::Started);
    }
}

} // verus!
