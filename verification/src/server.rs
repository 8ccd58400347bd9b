use vstd::prelude::*;

verus! {

/// Where the serving loop stands.
#[derive(Clone, Copy, Debug, PartialEq, Eq, Structural)]
pub enum ServerPhase {
    /// No listener exists, and none has been asked for.
    Down,
    /// A listener is being built from the certificate files.
    Binding,
    /// The listener accepts deliveries.
    Serving,
    /// The listener has been told to stop.
    Stopping,
    /// The listener is lost for good.
    Failed,
}

/// What the outside reports to the serving loop.
#[derive(Clone, Copy, Debug, PartialEq, Eq, Structural)]
pub enum ServerEvent {
    /// The process has started.
    Start,
    /// The listener was built and is bound to the port.
    Bound,
    /// The listener could not be built.
    BindFailed,
    /// A pending restart was taken from the restart signal.
    RestartRequested,
    /// The listener ended by itself.
    ListenerFailed,
    /// The listener has stopped and given up the port.
    Stopped,
}

/// What the serving loop asks the outside to do next.
#[derive(Clone, Copy, Debug, PartialEq, Eq, Structural)]
pub enum ServerAction {
    /// Build a listener from the certificate files as they are now, and bind it.
    Bind,
    /// Serve until the listener ends or a restart is pending.
    Serve,
    /// Stop the listener.
    Stop,
    /// Give up: the failure goes to the process.
    Exit,
    /// Carry on; the event changes nothing.
    Nothing,
}

/// The rule of the serving loop: the phase after `event`, and what is asked
/// for. A listener is built at the start and after the one before it has
/// stopped, and at no other time; it is stopped only for a restart. A
/// listener that cannot be built, or that ends by itself, is the end. An
/// event out of turn changes nothing.
pub open spec fn transition(phase: ServerPhase, event: ServerEvent) -> (ServerPhase, ServerAction) {
    match (phase, event) {
        (ServerPhase::Down, ServerEvent::Start) => (ServerPhase::Binding, ServerAction::Bind),
        (ServerPhase::Binding, ServerEvent::Bound) => (ServerPhase::Serving, ServerAction::Serve),
        (ServerPhase::Binding, ServerEvent::BindFailed) => (ServerPhase::Failed, ServerAction::Exit),
        (ServerPhase::Serving, ServerEvent::RestartRequested) => (
            ServerPhase::Stopping,
            ServerAction::Stop,
        ),
        (ServerPhase::Serving, ServerEvent::ListenerFailed) => (
            ServerPhase::Failed,
            ServerAction::Exit,
        ),
        (ServerPhase::Stopping, ServerEvent::Stopped) => (ServerPhase::Binding, ServerAction::Bind),
        _ => (phase, ServerAction::Nothing),
    }
}

/// The number of listeners that exist in `phase`: one from the moment it is
/// asked for until it is told to stop or is lost.
pub open spec fn listeners(phase: ServerPhase) -> int {
    match phase {
        ServerPhase::Binding | ServerPhase::Serving => 1,
        _ => 0,
    }
}

/// The phase after `events`, one after the other, and what was asked for at
/// each.
pub open spec fn run(phase: ServerPhase, events: Seq<ServerEvent>) -> (
    ServerPhase,
    Seq<ServerAction>,
)
    decreases events.len(),
{
    if events.len() == 0 {
        (phase, Seq::empty())
    } else {
        let (before, asked) = run(phase, events.drop_last());
        let (after, action) = transition(before, events.last());
        (after, asked.push(action))
    }
}

/// Listeners asked for less listeners given up, over `actions`.
pub open spec fn balance(actions: Seq<ServerAction>) -> int
    decreases actions.len(),
{
    if actions.len() == 0 {
        0
    } else {
        balance(actions.drop_last()) + match actions.last() {
            ServerAction::Bind => 1int,
            ServerAction::Stop | ServerAction::Exit => -1int,
            _ => 0int,
        }
    }
}

/// How many of `actions` ask for a listener to be built.
pub open spec fn builds(actions: Seq<ServerAction>) -> nat
    decreases actions.len(),
{
    if actions.len() == 0 {
        0
    } else {
        builds(actions.drop_last()) + if actions.last() == ServerAction::Bind {
            1nat
        } else {
            0nat
        }
    }
}

/// Runs the listener: builds it, serves, and rebuilds it when a restart is
/// asked for. It decides; the caller performs what it asks for and reports
/// how that went.
#[derive(Debug)]
pub struct ServingLoop {
    phase: ServerPhase,
}

impl ServingLoop {
    /// Where the loop stands.
    pub closed spec fn phase(&self) -> ServerPhase {
        self.phase
    }

    /// A loop that has not started.
    pub fn new() -> (serving: Self)
        ensures
            serving.phase() == ServerPhase::Down,
    {
        ServingLoop { phase: ServerPhase::Down }
    }

    /// Where the loop stands.
    pub fn current(&self) -> (phase: ServerPhase)
        ensures
            phase == self.phase(),
    {
        self.phase
    }

    /// Takes in `event` and says what to do next, as `transition` rules.
    pub fn step(&mut self, event: ServerEvent) -> (action: ServerAction)
        ensures
            (final(self).phase(), action) == transition(old(self).phase(), event),
    {
        let (next, action) = match (self.phase, event) {
            (ServerPhase::Down, ServerEvent::Start) => (ServerPhase::Binding, ServerAction::Bind),
            (ServerPhase::Binding, ServerEvent::Bound) => (
                ServerPhase::Serving,
                ServerAction::Serve,
            ),
            (ServerPhase::Binding, ServerEvent::BindFailed) => (
                ServerPhase::Failed,
                ServerAction::Exit,
            ),
            (ServerPhase::Serving, ServerEvent::RestartRequested) => (
                ServerPhase::Stopping,
                ServerAction::Stop,
            ),
            (ServerPhase::Serving, ServerEvent::ListenerFailed) => (
                ServerPhase::Failed,
                ServerAction::Exit,
            ),
            (ServerPhase::Stopping, ServerEvent::Stopped) => (
                ServerPhase::Binding,
                ServerAction::Bind,
            ),
            (phase, _) => (phase, ServerAction::Nothing),
        };
        self.phase = next;
        action
    }
}

/// Whatever is reported to a loop that starts with no listener, and in
/// whatever order, the listeners it has asked for and not given up are as
/// many as its phase says: never more than one.
pub proof fn law_one_listener_at_most(events: Seq<ServerEvent>)
    ensures
        balance(run(ServerPhase::Down, events).1) == listeners(run(ServerPhase::Down, events).0),
        0 <= balance(run(ServerPhase::Down, events).1) <= 1,
    decreases events.len(),
{
    if events.len() > 0 {
        law_one_listener_at_most(events.drop_last());
        let (before, asked) = run(ServerPhase::Down, events.drop_last());
        let (after, action) = transition(before, events.last());
        assert(asked.push(action).drop_last() =~= asked);
    }
}

/// A listener is only ever asked for where none exists, and a listener
/// that serves is stopped for a restart and for nothing else.
pub proof fn law_built_where_none_exists(phase: ServerPhase, event: ServerEvent)
    ensures
        transition(phase, event).1 == ServerAction::Bind ==> listeners(phase) == 0,
        transition(phase, event).1 == ServerAction::Stop <==> phase == ServerPhase::Serving
            && event == ServerEvent::RestartRequested,
{
}

} // verus!
