use polybot::address::PublicAddress;
use polybot::monitor::{Action, Event, IdentityMonitor};
use polybot::restart::RestartSignal;
use polybot::server::{ServerAction, ServerEvent, ServerPhase, ServingLoop};

#[test]
fn a_signal_is_taken_once() {
    let mut signal = RestartSignal::new();
    assert!(!signal.is_pending());
    assert!(!signal.take());
    signal.signal();
    assert!(signal.is_pending());
    assert!(signal.take());
    assert!(!signal.is_pending());
    assert!(!signal.take());
}

#[test]
fn two_signals_before_a_take_are_one() {
    let mut signal = RestartSignal::new();
    signal.signal();
    signal.signal();
    assert!(signal.take());
    assert!(!signal.take());
}

#[test]
fn the_loop_builds_serves_and_rebuilds() {
    let mut serving = ServingLoop::new();
    assert_eq!(serving.current(), ServerPhase::Down);
    assert_eq!(serving.step(ServerEvent::Start), ServerAction::Bind);
    assert_eq!(serving.current(), ServerPhase::Binding);
    assert_eq!(serving.step(ServerEvent::Bound), ServerAction::Serve);
    assert_eq!(serving.current(), ServerPhase::Serving);
    assert_eq!(serving.step(ServerEvent::RestartRequested), ServerAction::Stop);
    assert_eq!(serving.current(), ServerPhase::Stopping);
    assert_eq!(serving.step(ServerEvent::Stopped), ServerAction::Bind);
    assert_eq!(serving.step(ServerEvent::Bound), ServerAction::Serve);
    assert_eq!(serving.current(), ServerPhase::Serving);
}

#[test]
fn a_lost_listener_is_the_end() {
    let mut serving = ServingLoop::new();
    serving.step(ServerEvent::Start);
    serving.step(ServerEvent::Bound);
    assert_eq!(serving.step(ServerEvent::ListenerFailed), ServerAction::Exit);
    assert_eq!(serving.current(), ServerPhase::Failed);
    assert_eq!(serving.step(ServerEvent::Start), ServerAction::Nothing);
    assert_eq!(serving.step(ServerEvent::RestartRequested), ServerAction::Nothing);
    assert_eq!(serving.step(ServerEvent::Stopped), ServerAction::Nothing);
    assert_eq!(serving.current(), ServerPhase::Failed);
}

#[test]
fn a_listener_that_cannot_be_built_is_the_end() {
    let mut serving = ServingLoop::new();
    serving.step(ServerEvent::Start);
    assert_eq!(serving.step(ServerEvent::BindFailed), ServerAction::Exit);
    assert_eq!(serving.current(), ServerPhase::Failed);
}

#[test]
fn events_out_of_turn_change_nothing() {
    let mut serving = ServingLoop::new();
    assert_eq!(serving.step(ServerEvent::Bound), ServerAction::Nothing);
    assert_eq!(serving.step(ServerEvent::RestartRequested), ServerAction::Nothing);
    assert_eq!(serving.current(), ServerPhase::Down);
    serving.step(ServerEvent::Start);
    assert_eq!(serving.step(ServerEvent::Start), ServerAction::Nothing);
    assert_eq!(serving.step(ServerEvent::RestartRequested), ServerAction::Nothing);
    assert_eq!(serving.current(), ServerPhase::Binding);
    serving.step(ServerEvent::Bound);
    assert_eq!(serving.step(ServerEvent::Bound), ServerAction::Nothing);
    assert_eq!(serving.step(ServerEvent::Start), ServerAction::Nothing);
    assert_eq!(serving.step(ServerEvent::Stopped), ServerAction::Nothing);
    assert_eq!(serving.current(), ServerPhase::Serving);
    serving.step(ServerEvent::RestartRequested);
    assert_eq!(serving.step(ServerEvent::RestartRequested), ServerAction::Nothing);
    assert_eq!(serving.step(ServerEvent::ListenerFailed), ServerAction::Nothing);
    assert_eq!(serving.current(), ServerPhase::Stopping);
}

#[test]
fn no_two_listeners_exist_whatever_is_reported() {
    let events = [
        ServerEvent::Start,
        ServerEvent::Bound,
        ServerEvent::BindFailed,
        ServerEvent::RestartRequested,
        ServerEvent::ListenerFailed,
        ServerEvent::Stopped,
    ];
    let mut seed: u64 = 0x2545_F491_4F6C_DD1D;
    for _ in 0..500 {
        let mut serving = ServingLoop::new();
        let mut listeners: i64 = 0;
        for _ in 0..60 {
            seed = seed.wrapping_mul(6364136223846793005).wrapping_add(1442695040888963407);
            let mut pick = ((seed >> 33) % 8) as usize;
            if pick >= events.len() {
                pick = if serving.current() == ServerPhase::Binding { 1 } else { 5 };
            }
            match serving.step(events[pick]) {
                ServerAction::Bind => listeners += 1,
                ServerAction::Stop | ServerAction::Exit => listeners -= 1,
                ServerAction::Serve | ServerAction::Nothing => {}
            }
            assert!(listeners == 0 || listeners == 1);
            let expected = match serving.current() {
                ServerPhase::Binding | ServerPhase::Serving => 1,
                _ => 0,
            };
            assert_eq!(listeners, expected);
        }
    }
}

/// The parts put together as a process puts them together, with the files
/// and the listener stood in for by counters.
struct Rig {
    monitor: Option<IdentityMonitor>,
    signal: RestartSignal,
    serving: ServingLoop,
    written: u32,
    served: u32,
    built: u32,
    live: u32,
}

impl Rig {
    fn started() -> Rig {
        let mut rig = Rig {
            monitor: Some(IdentityMonitor::new()),
            signal: RestartSignal::new(),
            serving: ServingLoop::new(),
            written: 0,
            served: 0,
            built: 0,
            live: 0,
        };
        rig.report(ServerEvent::Start);
        rig.report(ServerEvent::Bound);
        rig
    }

    fn report(&mut self, event: ServerEvent) {
        match self.serving.step(event) {
            ServerAction::Bind => {
                assert_eq!(self.live, 0);
                self.live += 1;
                self.built += 1;
                self.served = self.written;
            }
            ServerAction::Stop | ServerAction::Exit => {
                assert_eq!(self.live, 1);
                self.live -= 1;
            }
            ServerAction::Serve | ServerAction::Nothing => {}
        }
    }

    fn tick(&mut self, ip: &str, verified: Option<bool>, generated: bool, registered: bool) {
        let mut event = Event::Tick;
        loop {
            let (next, action) = self.monitor.take().unwrap().step(event);
            self.monitor = Some(next);
            event = match action {
                Action::Resolve => Event::Resolved(PublicAddress::parse(ip).unwrap()),
                Action::Verify(_) => match verified {
                    Some(configured) => Event::Verified(configured),
                    None => Event::VerifyFailed,
                },
                Action::Generate(_) => {
                    if generated {
                        self.written += 1;
                        Event::Generated
                    } else {
                        Event::GenerateFailed
                    }
                }
                Action::Register(_) => {
                    if registered {
                        Event::Registered
                    } else {
                        Event::RegisterFailed
                    }
                }
                Action::SignalRestart => {
                    self.signal.signal();
                    Event::Signalled
                }
                Action::Sleep => break,
            };
        }
    }

    fn serve(&mut self) {
        if self.serving.current() == ServerPhase::Serving && self.signal.take() {
            self.report(ServerEvent::RestartRequested);
            self.report(ServerEvent::Stopped);
            self.report(ServerEvent::Bound);
        }
    }
}

#[test]
fn a_reconciliation_rebuilds_the_listener_once_with_the_new_certificate() {
    let mut rig = Rig::started();
    assert_eq!((rig.built, rig.served, rig.live), (1, 0, 1));
    rig.tick("1.1.1.1", Some(false), true, true);
    assert_eq!(rig.written, 1);
    assert_eq!(rig.built, 1);
    rig.serve();
    assert_eq!((rig.built, rig.served, rig.live), (2, 1, 1));
    rig.serve();
    rig.tick("1.1.1.1", Some(false), true, true);
    rig.serve();
    assert_eq!((rig.built, rig.served, rig.live, rig.written), (2, 1, 1, 1));
}

#[test]
fn two_reconciliations_before_the_loop_looks_rebuild_once() {
    let mut rig = Rig::started();
    rig.tick("1.1.1.1", Some(false), true, true);
    rig.tick("2.2.2.2", Some(false), true, true);
    assert_eq!(rig.written, 2);
    rig.serve();
    rig.serve();
    assert_eq!((rig.built, rig.served, rig.live), (2, 2, 1));
}

#[test]
fn a_failed_or_skipped_reconciliation_leaves_the_listener_alone() {
    let mut rig = Rig::started();
    rig.tick("1.1.1.1", Some(false), false, true);
    rig.serve();
    assert_eq!((rig.built, rig.served, rig.written), (1, 0, 0));
    rig.tick("1.1.1.1", Some(false), true, false);
    rig.serve();
    assert_eq!((rig.built, rig.served, rig.written), (1, 0, 1));
    rig.tick("1.1.1.1", None, true, true);
    rig.serve();
    assert_eq!((rig.built, rig.served, rig.written), (1, 0, 1));
    rig.tick("1.1.1.1", Some(true), true, true);
    rig.serve();
    assert_eq!((rig.built, rig.served, rig.written), (1, 0, 1));
    assert!(!rig.signal.is_pending());
}
