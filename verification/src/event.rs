//! The global event counter that numbers every traced kernel event, and the
//! summary record that each kind of event can be turned into.
use vstd::prelude::*;

verus! {

/// Numbers kernel events: the first event gets id 1, the next 2, and so on.
pub struct GlobalEventCounter {
    counter: usize,
}

impl GlobalEventCounter {
    /// The number of events numbered so far, which is also the last id handed out.
    pub closed spec fn view(&self) -> nat {
        self.counter as nat
    }

    /// A counter that has handed out no id yet.
    pub fn new() -> (c: Self)
        ensures
            c@ == 0,
    {
        GlobalEventCounter { counter: 0 }
    }

    /// Hands out the next event id: one more than the last one.
    pub fn next_event_id(&mut self) -> (id: usize)
        requires
            old(self)@ < usize::MAX,
        ensures
            final(self)@ == old(self)@ + 1,
            id == final(self)@,
    {
        self.counter = self.counter + 1;
        self.counter
    }

    /// The last id handed out, without handing out a new one (0 before the first).
    pub fn current_event_id(&self) -> (id: usize)
        ensures
            id == self@,
    {
        self.counter
    }

    /// Starts the numbering again from the beginning.
    pub fn reset(&mut self)
        ensures
            final(self)@ == 0,
    {
        self.counter = 0;
    }
}

/// Ids from one counter are handed out in order: the first id after `new` or
/// `reset` is 1, and each further id is one more than the one before it, so
/// no id is handed out twice.
pub proof fn lemma_event_ids_increase(
    before: GlobalEventCounter,
    first: usize,
    middle: GlobalEventCounter,
    second: usize,
    after: GlobalEventCounter,
)
    requires
        middle@ == before@ + 1,
        first == middle@,
        after@ == middle@ + 1,
        second == after@,
    ensures
        first >= 1,
        before@ == 0 ==> first == 1,
        second == first + 1,
        first < second,
{
}

/// Kinds of traced events.
#[derive(Debug, Clone, Copy, PartialEq, Eq, Structural)]
pub enum EventType {
    /// A switch from one process to another.
    ProcessSwitch,
    /// An interrupt or exception.
    Trap,
}

/// The common summary of an event of either kind.
#[derive(Debug, Clone, Copy)]
pub struct UnifiedEventRecord {
    /// Global event id.
    pub event_id: usize,
    /// Kind of event.
    pub event_type: EventType,
    /// Time stamp (not recorded: always 0).
    pub timestamp: usize,
    /// The process the event concerns.
    pub pid: usize,
    /// A short description of the event's kind.
    pub subtype_desc: &'static str,
}

} // verus!
