use crate::address::PublicAddress;
use vstd::prelude::*;

verus! {

/// Where the monitor stands within a tick.
#[derive(Clone, Debug, PartialEq, Eq)]
pub enum Phase {
    /// Between two ticks.
    Idle,
    /// The public address has been asked for.
    Resolving,
    /// The platform has been asked whether it already delivers to the address.
    Verifying(PublicAddress),
    /// A certificate for the address is being made.
    Generating(PublicAddress),
    /// The certificate is being registered with the platform.
    Registering(PublicAddress),
    /// The listener is being told to restart.
    Signalling(PublicAddress),
}

/// What the outside reports to the monitor.
#[derive(Clone, Debug, PartialEq, Eq)]
pub enum Event {
    /// The poll interval has passed.
    Tick,
    /// The public address was resolved.
    Resolved(PublicAddress),
    /// The public address could not be resolved.
    ResolveFailed,
    /// The platform said whether it delivers to the address under our certificate.
    Verified(bool),
    /// The platform could not be asked.
    VerifyFailed,
    /// The certificate was made and written.
    Generated,
    /// The certificate could not be made or written.
    GenerateFailed,
    /// The platform took the registration.
    Registered,
    /// The registration did not go through.
    RegisterFailed,
    /// The restart signal was raised.
    Signalled,
}

/// What the monitor asks the outside to do next.
#[derive(Clone, Debug, PartialEq, Eq)]
pub enum Action {
    /// Resolve the public address.
    Resolve,
    /// Ask the platform whether it delivers to the address under our certificate.
    Verify(PublicAddress),
    /// Make a certificate for the address and put it in place.
    Generate(PublicAddress),
    /// Register the address and the certificate with the platform.
    Register(PublicAddress),
    /// Raise the restart signal.
    SignalRestart,
    /// Wait for the next tick.
    Sleep,
}

/// The mathematical value of a `Phase`.
pub enum PhaseView {
    Idle,
    Resolving,
    Verifying(Seq<char>),
    Generating(Seq<char>),
    Registering(Seq<char>),
    Signalling(Seq<char>),
}

/// The mathematical value of an `Event`.
pub enum EventView {
    Tick,
    Resolved(Seq<char>),
    ResolveFailed,
    Verified(bool),
    VerifyFailed,
    Generated,
    GenerateFailed,
    Registered,
    RegisterFailed,
    Signalled,
}

/// The mathematical value of an `Action`.
pub enum ActionView {
    Resolve,
    Verify(Seq<char>),
    Generate(Seq<char>),
    Register(Seq<char>),
    SignalRestart,
    Sleep,
}

/// The mathematical value of an `IdentityMonitor`.
pub struct MonitorView {
    /// The address of the last cycle that went through, if any did.
    pub last_known: Option<Seq<char>>,
    pub phase: PhaseView,
}

impl View for Phase {
    type V = PhaseView;

    open spec fn view(&self) -> PhaseView {
        match self {
            Phase::Idle => PhaseView::Idle,
            Phase::Resolving => PhaseView::Resolving,
            Phase::Verifying(address) => PhaseView::Verifying(address@),
            Phase::Generating(address) => PhaseView::Generating(address@),
            Phase::Registering(address) => PhaseView::Registering(address@),
            Phase::Signalling(address) => PhaseView::Signalling(address@),
        }
    }
}

impl View for Event {
    type V = EventView;

    open spec fn view(&self) -> EventView {
        match self {
            Event::Tick => EventView::Tick,
            Event::Resolved(address) => EventView::Resolved(address@),
            Event::ResolveFailed => EventView::ResolveFailed,
            Event::Verified(configured) => EventView::Verified(*configured),
            Event::VerifyFailed => EventView::VerifyFailed,
            Event::Generated => EventView::Generated,
            Event::GenerateFailed => EventView::GenerateFailed,
            Event::Registered => EventView::Registered,
            Event::RegisterFailed => EventView::RegisterFailed,
            Event::Signalled => EventView::Signalled,
        }
    }
}

impl View for Action {
    type V = ActionView;

    open spec fn view(&self) -> ActionView {
        match self {
            Action::Resolve => ActionView::Resolve,
            Action::Verify(address) => ActionView::Verify(address@),
            Action::Generate(address) => ActionView::Generate(address@),
            Action::Register(address) => ActionView::Register(address@),
            Action::SignalRestart => ActionView::SignalRestart,
            Action::Sleep => ActionView::Sleep,
        }
    }
}

/// A monitor between two ticks that has `last_known` on record.
pub open spec fn idle(last_known: Option<Seq<char>>) -> MonitorView {
    MonitorView { last_known, phase: PhaseView::Idle }
}

/// The rule of the monitor: the state after `event`, and what is asked for.
///
/// A tick starts with resolving the public address. An address equal to the
/// one on record ends the tick. Any other address is reconciled: the
/// platform is asked first, and only if it does not already deliver to that
/// address a certificate is made, then registered, then the restart signal
/// raised. The address goes on record when the platform was found in order
/// or the signal was raised, and at no other time. A failure, or an event
/// out of turn, ends the tick with the record as it was.
pub open spec fn transition(m: MonitorView, event: EventView) -> (MonitorView, ActionView) {
    let give_up = (idle(m.last_known), ActionView::Sleep);
    match m.phase {
        PhaseView::Idle => match event {
            EventView::Tick => (
                MonitorView { last_known: m.last_known, phase: PhaseView::Resolving },
                ActionView::Resolve,
            ),
            _ => give_up,
        },
        PhaseView::Resolving => match event {
            EventView::Resolved(address) => if m.last_known == Some(address) {
                give_up
            } else {
                (
                    MonitorView { last_known: m.last_known, phase: PhaseView::Verifying(address) },
                    ActionView::Verify(address),
                )
            },
            _ => give_up,
        },
        PhaseView::Verifying(address) => match event {
            EventView::Verified(true) => (idle(Some(address)), ActionView::Sleep),
            EventView::Verified(false) => (
                MonitorView { last_known: m.last_known, phase: PhaseView::Generating(address) },
                ActionView::Generate(address),
            ),
            _ => give_up,
        },
        PhaseView::Generating(address) => match event {
            EventView::Generated => (
                MonitorView { last_known: m.last_known, phase: PhaseView::Registering(address) },
                ActionView::Register(address),
            ),
            _ => give_up,
        },
        PhaseView::Registering(address) => match event {
            EventView::Registered => (
                MonitorView { last_known: m.last_known, phase: PhaseView::Signalling(address) },
                ActionView::SignalRestart,
            ),
            _ => give_up,
        },
        PhaseView::Signalling(address) => match event {
            EventView::Signalled => (idle(Some(address)), ActionView::Sleep),
            _ => give_up,
        },
    }
}

/// Whatever is reported, and in whatever order, each step of a
/// reconciliation is asked for only when the step before it has gone
/// through: the certificate after the platform said it does not deliver to
/// the address, the registration after the certificate was put in place,
/// the restart signal after the registration went through. And the record
/// changes only when the platform was found in order or the signal was
/// raised, to the address that was reconciled.
pub proof fn law_steps_in_order(m: MonitorView, event: EventView)
    ensures
        transition(m, event).1 is Verify <==> m.phase is Resolving && event is Resolved
            && m.last_known != Some(event->Resolved_0),
        transition(m, event).1 is Generate <==> m.phase is Verifying && event == EventView::Verified(
            false,
        ),
        transition(m, event).1 is Register <==> m.phase is Generating && event is Generated,
        transition(m, event).1 is SignalRestart <==> m.phase is Registering && event is Registered,
        transition(m, event).0.last_known != m.last_known ==> {
            ||| m.phase is Verifying && event == EventView::Verified(true)
                && transition(m, event).0.last_known == Some(m.phase->Verifying_0)
            ||| m.phase is Signalling && event is Signalled && transition(m, event).0.last_known
                == Some(m.phase->Signalling_0)
        },
{
}

/// Watches the public address and drives the reconciliation that a change
/// of it calls for. It decides; the caller performs what it asks for and
/// reports how that went.
#[derive(Debug)]
pub struct IdentityMonitor {
    last_known: Option<PublicAddress>,
    phase: Phase,
}

impl View for IdentityMonitor {
    type V = MonitorView;

    closed spec fn view(&self) -> MonitorView {
        MonitorView {
            last_known: match self.last_known {
                Some(address) => Some(address@),
                None => None,
            },
            phase: self.phase@,
        }
    }
}

impl IdentityMonitor {
    /// A monitor that has seen no address yet.
    pub fn new() -> (m: Self)
        ensures
            m@ == idle(None),
    {
        IdentityMonitor { last_known: None, phase: Phase::Idle }
    }

    /// The address of the last cycle that went through.
    pub fn last_known(&self) -> (address: Option<&PublicAddress>)
        ensures
            match address {
                Some(a) => self@.last_known == Some(a@),
                None => self@.last_known is None,
            },
    {
        self.last_known.as_ref()
    }

    /// Whether the monitor is between two ticks.
    pub fn is_idle(&self) -> (idle: bool)
        ensures
            idle == (self@.phase is Idle),
    {
        match &self.phase {
            Phase::Idle => true,
            _ => false,
        }
    }

    /// Takes in `event` and says what to do next, as `transition` rules.
    pub fn step(self, event: Event) -> (next: (IdentityMonitor, Action))
        ensures
            (next.0@, next.1@) == transition(self@, event@),
    {
        let IdentityMonitor { last_known, phase } = self;
        match phase {
            Phase::Idle => match event {
                Event::Tick => (
                    IdentityMonitor { last_known, phase: Phase::Resolving },
                    Action::Resolve,
                ),
                _ => (IdentityMonitor { last_known, phase: Phase::Idle }, Action::Sleep),
            },
            Phase::Resolving => match event {
                Event::Resolved(address) => {
                    let unchanged = match &last_known {
                        Some(known) => known.same_as(&address),
                        None => false,
                    };
                    if unchanged {
                        (IdentityMonitor { last_known, phase: Phase::Idle }, Action::Sleep)
                    } else {
                        let asked = address.clone();
                        (
                            IdentityMonitor { last_known, phase: Phase::Verifying(address) },
                            Action::Verify(asked),
                        )
                    }
                },
                _ => (IdentityMonitor { last_known, phase: Phase::Idle }, Action::Sleep),
            },
            Phase::Verifying(address) => match event {
                Event::Verified(true) => (
                    IdentityMonitor { last_known: Some(address), phase: Phase::Idle },
                    Action::Sleep,
                ),
                Event::Verified(false) => {
                    let asked = address.clone();
                    (
                        IdentityMonitor { last_known, phase: Phase::Generating(address) },
                        Action::Generate(asked),
                    )
                },
                _ => (IdentityMonitor { last_known, phase: Phase::Idle }, Action::Sleep),
            },
            Phase::Generating(address) => match event {
                Event::Generated => {
                    let asked = address.clone();
                    (
                        IdentityMonitor { last_known, phase: Phase::Registering(address) },
                        Action::Register(asked),
                    )
                },
                _ => (IdentityMonitor { last_known, phase: Phase::Idle }, Action::Sleep),
            },
            Phase::Registering(address) => match event {
                Event::Registered => (
                    IdentityMonitor { last_known, phase: Phase::Signalling(address) },
                    Action::SignalRestart,
                ),
                _ => (IdentityMonitor { last_known, phase: Phase::Idle }, Action::Sleep),
            },
            Phase::Signalling(address) => match event {
                Event::Signalled => (
                    IdentityMonitor { last_known: Some(address), phase: Phase::Idle },
                    Action::Sleep,
                ),
                _ => (IdentityMonitor { last_known, phase: Phase::Idle }, Action::Sleep),
            },
        }
    }
}

} // verus!
