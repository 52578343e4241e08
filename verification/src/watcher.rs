//! The one-shot activation watcher.
//!
//! Each registered service gets a watcher that owns the service's bound
//! listening socket and waits for the first readable event — a pending
//! connection attempt. The watcher is an explicit state machine: it fires
//! at most once, and once fired it never re-arms; subsequent connections on
//! the socket are the activated service's own responsibility. The readiness
//! poll itself is I/O and runs outside this crate; it feeds events to the
//! verified machine, which decides whether to spawn.

use vstd::prelude::*;

verus! {

/// The life of a watcher: the socket is not yet bound, bound, registered
/// with the readiness poll, or the watcher has fired. `Fired` is terminal.
#[derive(Clone, Copy, Debug, PartialEq, Eq, Structural)]
pub enum WatcherState {
    Unbound,
    Bound,
    Armed,
    Fired,
}

/// The state after one readiness event: an armed watcher that sees a
/// readable event fires; every other state ignores the event.
pub open spec fn spec_step_state(s: WatcherState, readable: bool) -> WatcherState {
    if s is Armed && readable {
        WatcherState::Fired
    } else {
        s
    }
}

/// Whether one readiness event makes the watcher spawn its service: only
/// an armed watcher that sees a readable event does.
pub open spec fn spec_step_spawns(s: WatcherState, readable: bool) -> bool {
    s is Armed && readable
}

/// How many spawns a run of the machine from state `s` over a sequence of
/// readiness events yields.
pub open spec fn spec_run_spawns(s: WatcherState, events: Seq<bool>) -> nat
    decreases events.len(),
{
    if events.len() == 0 {
        0
    } else {
        (if spec_step_spawns(s, events[0]) {
            1 as nat
        } else {
            0 as nat
        }) + spec_run_spawns(spec_step_state(s, events[0]), events.drop_first())
    }
}

/// The per-service activation watcher.
pub struct ActivationWatcher {
    state: WatcherState,
}

impl ActivationWatcher {
    /// The watcher's current state.
    pub closed spec fn view(&self) -> WatcherState {
        self.state
    }

    /// A fresh watcher: its socket is not yet bound.
    pub fn new() -> (w: ActivationWatcher)
        ensures
            w@ is Unbound,
    {
        ActivationWatcher { state: WatcherState::Unbound }
    }

    /// Records that the service's listening socket has been bound.
    pub fn socket_bound(&mut self)
        requires
            old(self)@ is Unbound,
        ensures
            final(self)@ is Bound,
    {
        self.state = WatcherState::Bound;
    }

    /// Records the single readiness-poll registration: the watcher is now
    /// armed and waits for the first readable event.
    pub fn poll_registered(&mut self)
        requires
            old(self)@ is Bound,
        ensures
            final(self)@ is Armed,
    {
        self.state = WatcherState::Armed;
    }

    /// Feeds one readiness event to the watcher and reports whether the
    /// service must be spawned now: exactly when the watcher was armed and
    /// the event signals a pending connection. A fired watcher never
    /// spawns again.
    pub fn on_event(&mut self, readable: bool) -> (spawn: bool)
        ensures
            final(self)@ == spec_step_state(old(self)@, readable),
            spawn == spec_step_spawns(old(self)@, readable),
    {
        let spawn = matches!(self.state, WatcherState::Armed) && readable;
        if spawn {
            self.state = WatcherState::Fired;
        }
        spawn
    }

    /// The current state, for the hosting task to inspect.
    pub fn state(&self) -> (s: WatcherState)
        ensures
            s == self@,
    {
        self.state
    }
}

/// Without a connection attempt there is no spawn: a run over events none
/// of which is readable spawns no service, from any state. No child
/// process for a service exists until a connection attempt targets its
/// socket.
pub proof fn lemma_no_spawn_without_connection(s: WatcherState, events: Seq<bool>)
    requires
        forall|i: int| 0 <= i < events.len() ==> !events[i],
    ensures
        spec_run_spawns(s, events) == 0,
    decreases events.len(),
{
    if events.len() > 0 {
        assert(!events[0]);
        let rest = events.drop_first();
        assert(forall|i: int| 0 <= i < rest.len() ==> rest[i] == events[i + 1]);
        lemma_no_spawn_without_connection(spec_step_state(s, events[0]), rest);
    }
}

/// `Fired` is terminal: a fired watcher ignores every further event and
/// never spawns again.
pub proof fn lemma_fired_never_spawns(events: Seq<bool>)
    ensures
        spec_run_spawns(WatcherState::Fired, events) == 0,
    decreases events.len(),
{
    if events.len() > 0 {
        lemma_fired_never_spawns(events.drop_first());
    }
}

/// The watcher is one-shot: over any sequence of readiness events, from
/// any state, it spawns its service at most once.
pub proof fn lemma_at_most_one_spawn(s: WatcherState, events: Seq<bool>)
    ensures
        spec_run_spawns(s, events) <= 1,
    decreases events.len(),
{
    if events.len() > 0 {
        if spec_step_spawns(s, events[0]) {
            lemma_fired_never_spawns(events.drop_first());
        } else {
            lemma_at_most_one_spawn(spec_step_state(s, events[0]), events.drop_first());
        }
    }
}

} // verus!
