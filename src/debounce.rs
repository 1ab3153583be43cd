use vstd::prelude::*;

verus! {

/// What a scheduled check finds when its delay has elapsed.
#[derive(Debug, Clone, Copy, PartialEq, Eq, Structural)]
pub enum DebounceOutcome {
    /// A newer event arrived during the delay; this one is dropped.
    Superseded,
    /// No newer event arrived; this one is the settled state and proceeds.
    Proceed,
}

/// The outcome for a check holding `ticket` when the counter stands at `generation`.
pub open spec fn outcome_of(generation: u64, ticket: u64) -> DebounceOutcome {
    if generation == ticket {
        DebounceOutcome::Proceed
    } else {
        DebounceOutcome::Superseded
    }
}

/// Generation counter that collapses a burst of change notifications into the
/// last one: every event takes a ticket, and after the delay only the holder of
/// the newest ticket proceeds.
pub struct Debouncer {
    generation: u64,
}

impl Debouncer {
    /// Number of events registered so far.
    pub closed spec fn generation(&self) -> u64 {
        self.generation
    }

    pub fn new() -> (r: Debouncer)
        ensures
            r.generation() == 0,
    {
        Debouncer { generation: 0 }
    }

    /// The current generation.
    pub fn current_generation(&self) -> (r: u64)
        ensures
            r == self.generation(),
    {
        self.generation
    }

    /// Registers a raw event and returns its ticket, the new generation.
    pub fn register_event(&mut self) -> (ticket: u64)
        requires
            old(self).generation() < u64::MAX,
        ensures
            final(self).generation() == old(self).generation() + 1,
            ticket == final(self).generation(),
    {
        self.generation = self.generation + 1;
        self.generation
    }

    /// Decides, once the delay has elapsed, whether the event holding `ticket` proceeds.
    pub fn settle(&self, ticket: u64) -> (r: DebounceOutcome)
        ensures
            r == outcome_of(self.generation(), ticket),
    {
        if self.generation == ticket {
            DebounceOutcome::Proceed
        } else {
            DebounceOutcome::Superseded
        }
    }
}

/// Ticket of the k-th event (counting from zero) of a burst registered from generation `start`.
pub open spec fn burst_ticket(start: u64, k: u64) -> u64 {
    (start + k + 1) as u64
}

/// Of `n >= 1` events registered one after another from generation `start`
/// (the k-th takes ticket `start + k + 1`) and all checked after the last was
/// registered, exactly one proceeds: the last.
pub proof fn lemma_burst_settles_on_last(start: u64, n: u64)
    requires
        n >= 1,
        start + n <= u64::MAX,
    ensures
        forall|k: u64|
            k < n ==> (outcome_of((start + n) as u64, #[trigger] burst_ticket(start, k))
                == DebounceOutcome::Proceed <==> k == n - 1),
{
}

} // verus!
