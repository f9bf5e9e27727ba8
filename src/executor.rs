use vstd::prelude::*;

verus! {

/// What the confinement thread's receive loop observed.
#[derive(Clone, Copy, Debug, PartialEq, Eq, Structural)]
pub enum LoopEvent {
    /// A task came out of the channel.
    Received,
    /// A spawned task finished and signalled its response channel.
    Settled,
    /// The channel is empty and every sender has been dropped.
    Closed,
}

/// What the receive loop does next.
#[derive(Clone, Copy, Debug, PartialEq, Eq, Structural)]
pub enum LoopAction {
    /// Run the received task as its own unit of work on this thread.
    Spawn,
    /// Keep going: more tasks may come or are still running.
    Continue,
    /// Every task has been answered and no sender is left: the thread ends.
    Exit,
}

/// The receive loop's account of the tasks it has taken in and answered.
#[derive(Clone, Copy, Debug, PartialEq, Eq, Structural)]
pub struct LoopState {
    pub received: u64,
    pub settled: u64,
    pub open: bool,
}

/// Whether `ev` can happen in `st`: a task arrives only while senders remain,
/// and only a task that was spawned can finish.
pub open spec fn may_happen(st: LoopState, ev: LoopEvent) -> bool {
    match ev {
        LoopEvent::Received => st.open && st.received < u64::MAX,
        LoopEvent::Settled => st.settled < st.received,
        LoopEvent::Closed => st.open,
    }
}

/// The state after `ev`.
pub open spec fn next_state(st: LoopState, ev: LoopEvent) -> LoopState {
    match ev {
        LoopEvent::Received => LoopState { received: (st.received + 1) as u64, ..st },
        LoopEvent::Settled => LoopState { settled: (st.settled + 1) as u64, ..st },
        LoopEvent::Closed => LoopState { open: false, ..st },
    }
}

/// The action taken on `ev`, which led to `next`.
pub open spec fn action_for(next: LoopState, ev: LoopEvent) -> LoopAction {
    if ev is Received {
        LoopAction::Spawn
    } else if !next.open && next.settled == next.received {
        LoopAction::Exit
    } else {
        LoopAction::Continue
    }
}

/// Whether `events`, from a fresh loop, can happen in that order.
pub open spec fn legal_run(events: Seq<LoopEvent>) -> bool
    decreases events.len(),
{
    if events.len() == 0 {
        true
    } else {
        legal_run(events.drop_last()) && may_happen(state_after(events.drop_last()), events.last())
    }
}

/// The state after `events`, from a fresh loop.
pub open spec fn state_after(events: Seq<LoopEvent>) -> LoopState
    decreases events.len(),
{
    if events.len() == 0 {
        LoopState { received: 0, settled: 0, open: true }
    } else {
        next_state(state_after(events.drop_last()), events.last())
    }
}

/// How many of `events` are `ev`.
pub open spec fn count(events: Seq<LoopEvent>, ev: LoopEvent) -> nat
    decreases events.len(),
{
    if events.len() == 0 {
        0
    } else {
        count(events.drop_last(), ev) + if events.last() == ev { 1nat } else { 0nat }
    }
}

impl LoopState {
    /// A loop is well formed when it never answered more tasks than it received.
    pub open spec fn wf(self) -> bool {
        self.settled <= self.received
    }

    /// A fresh loop: nothing received, senders present.
    pub fn new() -> (r: Self)
        ensures
            r == state_after(Seq::<LoopEvent>::empty()),
            r.wf(),
    {
        LoopState { received: 0, settled: 0, open: true }
    }

    /// Takes `ev` into account and says what to do next.
    pub fn step(&mut self, ev: LoopEvent) -> (r: LoopAction)
        requires
            old(self).wf(),
            may_happen(*old(self), ev),
        ensures
            *final(self) == next_state(*old(self), ev),
            final(self).wf(),
            r == action_for(*final(self), ev),
            r is Exit <==> (ev !is Received && !final(self).open && final(self).settled
                == final(self).received),
    {
        match ev {
            LoopEvent::Received => {
                self.received = self.received + 1;
                LoopAction::Spawn
            },
            LoopEvent::Settled => {
                self.settled = self.settled + 1;
                if !self.open && self.settled == self.received {
                    LoopAction::Exit
                } else {
                    LoopAction::Continue
                }
            },
            LoopEvent::Closed => {
                self.open = false;
                if self.settled == self.received {
                    LoopAction::Exit
                } else {
                    LoopAction::Continue
                }
            },
        }
    }
}

proof fn counts_match_state(events: Seq<LoopEvent>)
    requires
        legal_run(events),
    ensures
        state_after(events).received == count(events, LoopEvent::Received),
        state_after(events).settled == count(events, LoopEvent::Settled),
        state_after(events).wf(),
        !state_after(events).open <==> count(events, LoopEvent::Closed) > 0,
    decreases events.len(),
{
    if events.len() > 0 {
        counts_match_state(events.drop_last());
    }
}

/// However the tasks of one lineage arrive and interleave, the loop exits only
/// once it has answered exactly as many tasks as it received, and only after
/// every sender has gone.
pub proof fn exit_only_when_every_task_answered(events: Seq<LoopEvent>)
    requires
        events.len() > 0,
        legal_run(events),
        action_for(state_after(events), events.last()) is Exit,
    ensures
        count(events, LoopEvent::Settled) == count(events, LoopEvent::Received),
        count(events, LoopEvent::Closed) > 0,
{
    counts_match_state(events);
}

/// Once every sender has gone no task can arrive any more, each running task
/// may still finish, and the one that finishes last makes the loop exit:
/// dropping every handle lets the thread end.
pub proof fn closed_loop_exits_when_drained(events: Seq<LoopEvent>)
    requires
        legal_run(events),
        count(events, LoopEvent::Closed) > 0,
    ensures
        !may_happen(state_after(events), LoopEvent::Received),
        state_after(events).settled < state_after(events).received ==> may_happen(
            state_after(events),
            LoopEvent::Settled,
        ),
        state_after(events).settled < state_after(events).received ==> (action_for(
            next_state(state_after(events), LoopEvent::Settled),
            LoopEvent::Settled,
        ) is Exit <==> state_after(events).settled + 1 == state_after(events).received),
{
    counts_match_state(events);
}

} // verus!
