use vstd::prelude::*;

verus! {

/// What one accept call on the listening socket gave.
#[derive(Clone, Copy, Debug, PartialEq, Eq, Structural)]
pub enum AcceptOutcome {
    /// A connection was accepted.
    Accepted,
    /// The call timed out: a transient error.
    TimedOut,
    /// Any other error: fatal to the listener.
    Failed,
}

/// What the accept loop does with an outcome.
#[derive(Clone, Copy, Debug, PartialEq, Eq, Structural)]
pub enum AcceptAction {
    /// Hand the connection to the consumer.
    Deliver,
    /// Try the next accept.
    Retry,
    /// Set the error as the channel's terminal error, then stop.
    ReportAndStop,
    /// Stop without delivering anything.
    Stop,
}

/// The decisions of a listener's accept loop, apart from the socket and the
/// channel that it works on.
#[derive(Debug)]
pub struct AcceptLoop {
    running: bool,
}

impl AcceptLoop {
    pub closed spec fn running(&self) -> bool {
        self.running
    }

    pub fn new() -> (r: AcceptLoop)
        ensures
            r.running(),
    {
        AcceptLoop { running: true }
    }

    pub fn is_running(&self) -> (r: bool)
        ensures
            r == self.running(),
    {
        self.running
    }

    /// Polled before each accept: `closed` says whether the listener was
    /// shut down or the consumer went away. Returns whether to accept again.
    pub fn should_accept(&mut self, closed: bool) -> (r: bool)
        ensures
            r == after_poll(old(self).running(), closed),
            final(self).running() == r,
    {
        if closed {
            self.running = false;
        }
        self.running
    }

    /// Decides what to do with what an accept call gave. A stopped loop
    /// delivers nothing.
    pub fn on_accept(&mut self, outcome: AcceptOutcome) -> (r: AcceptAction)
        ensures
            r == action_for(old(self).running(), outcome),
            final(self).running() == after_accept(old(self).running(), outcome),
    {
        if !self.running {
            return AcceptAction::Stop;
        }
        match outcome {
            AcceptOutcome::Accepted => AcceptAction::Deliver,
            AcceptOutcome::TimedOut => AcceptAction::Retry,
            AcceptOutcome::Failed => {
                self.running = false;
                AcceptAction::ReportAndStop
            },
        }
    }

    /// Records whether the consumer took the delivered connection; if it had
    /// gone away, the loop stops.
    pub fn on_delivered(&mut self, taken: bool) -> (r: bool)
        ensures
            r == after_delivery(old(self).running(), taken),
            final(self).running() == r,
    {
        if !taken {
            self.running = false;
        }
        self.running
    }
}

/// The loop's state after polling: it stops once closed.
pub open spec fn after_poll(running: bool, closed: bool) -> bool {
    running && !closed
}

/// What a loop in the given state does with an accept's outcome.
pub open spec fn action_for(running: bool, outcome: AcceptOutcome) -> AcceptAction {
    if !running {
        AcceptAction::Stop
    } else {
        match outcome {
            AcceptOutcome::Accepted => AcceptAction::Deliver,
            AcceptOutcome::TimedOut => AcceptAction::Retry,
            AcceptOutcome::Failed => AcceptAction::ReportAndStop,
        }
    }
}

/// The loop's state after an accept's outcome: a fatal error stops it.
pub open spec fn after_accept(running: bool, outcome: AcceptOutcome) -> bool {
    running && outcome != AcceptOutcome::Failed
}

/// The loop's state after a delivery: it stops if the consumer was gone.
pub open spec fn after_delivery(running: bool, taken: bool) -> bool {
    running && taken
}

/// One turn of the accept loop as its caller sees it: whether the listener
/// was closed when polled, what the accept call gave, and whether the
/// consumer took a delivered connection.
pub type AcceptEvent = (bool, AcceptOutcome, bool);

/// Whether a turn delivers a connection, from the loop's state before it:
/// `should_accept` lets it accept and `on_accept` answers `Deliver`.
pub open spec fn delivers(running: bool, e: AcceptEvent) -> bool {
    after_poll(running, e.0) && action_for(true, e.1) == AcceptAction::Deliver
}

/// The loop's state after a turn: `should_accept`, then, if it lets the loop
/// accept, `on_accept`, then, for a delivery, `on_delivered`.
pub open spec fn after_turn(running: bool, e: AcceptEvent) -> bool {
    let polled = after_poll(running, e.0);
    if !polled {
        false
    } else if action_for(polled, e.1) == AcceptAction::Deliver {
        after_delivery(after_accept(polled, e.1), e.2)
    } else {
        after_accept(polled, e.1)
    }
}

/// How many connections a run of turns delivers.
pub open spec fn deliveries(running: bool, events: Seq<AcceptEvent>) -> nat
    decreases events.len(),
{
    if events.len() == 0 {
        0
    } else {
        (if delivers(running, events[0]) { 1nat } else { 0nat })
            + deliveries(after_turn(running, events[0]), events.drop_first())
    }
}

proof fn lemma_stopped_run_delivers_nothing(events: Seq<AcceptEvent>)
    ensures
        deliveries(false, events) == 0,
    decreases events.len(),
{
    if events.len() > 0 {
        lemma_stopped_run_delivers_nothing(events.drop_first());
    }
}

/// Shutdown is final: once the loop polls a closed listener, no later turn
/// delivers a connection, so the run delivers exactly what the turns before
/// the shutdown delivered.
pub proof fn lemma_shutdown_ends_deliveries(running: bool, events: Seq<AcceptEvent>, i: int)
    requires
        0 <= i < events.len(),
        events[i].0,
    ensures
        deliveries(running, events) == deliveries(running, events.take(i)),
    decreases i,
{
    if i == 0 {
        lemma_stopped_run_delivers_nothing(events.drop_first());
        assert(events.take(0).len() == 0);
    } else {
        let rest = events.drop_first();
        assert(rest[i - 1] == events[i]);
        lemma_shutdown_ends_deliveries(after_turn(running, events[0]), rest, i - 1);
        assert(events.take(i).drop_first() =~= rest.take(i - 1));
        assert(events.take(i)[0] == events[0]);
    }
}

} // verus!
