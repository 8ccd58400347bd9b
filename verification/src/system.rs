use crate::cycle::{
    changed, completes, count, lemma_tick_counts, lemma_tick_follows_script, tick, Answers, Kind,
};
use crate::monitor::{idle, MonitorView};
use crate::restart::{raised, taken};
use crate::server::{transition, ServerAction, ServerEvent, ServerPhase};
use vstd::prelude::*;

verus! {

/// The monitor, the restart signal and the serving loop side by side, with
/// a count of what the outside has done at their request.
pub struct World {
    pub monitor: MonitorView,
    /// Whether a restart is pending.
    pub signal: bool,
    pub serving: ServerPhase,
    /// How many certificates have been put in place.
    pub written: nat,
    /// `written` as it was when the listener now in service was built: which
    /// certificate it serves under.
    pub served: nat,
    /// How many listeners have been built.
    pub built: nat,
}

/// The world after one tick of the monitor: a certificate that was asked
/// for and could be made is in place, and a signal that was asked for is
/// raised.
pub open spec fn reconcile(w: World, answers: Answers) -> World {
    let (monitor, asked) = tick(w.monitor, answers);
    World {
        monitor,
        signal: if count(asked, Kind::SignalRestart) > 0 {
            raised(w.signal)
        } else {
            w.signal
        },
        written: if count(asked, Kind::Generate) > 0 && answers.generated {
            w.written + 1
        } else {
            w.written
        },
        ..w
    }
}

/// The world after `event` was reported to the serving loop and what it
/// asked for was done: a listener that is built reads the certificate that
/// is in place at that time.
pub open spec fn deliver(w: World, event: ServerEvent) -> World {
    let (serving, action) = transition(w.serving, event);
    if action == ServerAction::Bind {
        World { serving, served: w.written, built: w.built + 1, ..w }
    } else {
        World { serving, ..w }
    }
}

/// The world after the serving loop has looked at the restart signal
/// while serving: a pending restart is taken, the listener stopped, and a
/// new one built and put in service.
pub open spec fn serve(w: World) -> World {
    if w.serving == ServerPhase::Serving && taken(w.signal).0 {
        let cleared = World { signal: taken(w.signal).1, ..w };
        deliver(
            deliver(deliver(cleared, ServerEvent::RestartRequested), ServerEvent::Stopped),
            ServerEvent::Bound,
        )
    } else {
        w
    }
}

/// After a reconciliation that went through, the listener is rebuilt
/// exactly once, and the new listener serves under the certificate that
/// this reconciliation wrote, not under the one before.
pub proof fn law_reconciliation_rebuilds_once(w: World, answers: Answers)
    requires
        w.monitor.phase is Idle,
        w.serving == ServerPhase::Serving,
        !w.signal,
        changed(w.monitor.last_known, answers),
        answers.verified == Some(false),
        answers.generated,
        answers.registered,
    ensures
        reconcile(w, answers).written == w.written + 1,
        reconcile(w, answers).built == w.built,
        serve(reconcile(w, answers)).built == w.built + 1,
        serve(reconcile(w, answers)).served == w.written + 1,
        serve(reconcile(w, answers)).serving == ServerPhase::Serving,
        !serve(reconcile(w, answers)).signal,
        serve(serve(reconcile(w, answers))) == serve(reconcile(w, answers)),
{
    assert(w.monitor == idle(w.monitor.last_known));
    lemma_tick_follows_script(w.monitor.last_known, answers);
    lemma_tick_counts(w.monitor.last_known, answers);
}

/// A tick that does not write a certificate and register it raises no
/// signal, and without a pending signal the listener is left alone.
pub proof fn law_no_rebuild_without_reconciliation(w: World, answers: Answers)
    requires
        w.monitor.phase is Idle,
        !w.signal,
        !changed(w.monitor.last_known, answers) || !completes(answers) || answers.verified == Some(
            true,
        ),
    ensures
        !reconcile(w, answers).signal,
        serve(reconcile(w, answers)) == reconcile(w, answers),
        !changed(w.monitor.last_known, answers) || answers.verified != Some(false)
            || !answers.generated ==> reconcile(w, answers).written == w.written,
{
    assert(w.monitor == idle(w.monitor.last_known));
    lemma_tick_follows_script(w.monitor.last_known, answers);
    lemma_tick_counts(w.monitor.last_known, answers);
}

/// A signal raised twice before the serving loop takes it brings one
/// rebuild, not two.
pub proof fn law_two_signals_one_rebuild(w: World)
    requires
        w.serving == ServerPhase::Serving,
    ensures
        ({
            let twice = World { signal: raised(raised(w.signal)), ..w };
            &&& serve(twice).built == w.built + 1
            &&& serve(twice).served == w.written
            &&& serve(serve(twice)) == serve(twice)
        }),
{
}

/// Two reconciliations that go through before the serving loop looks at
/// the signal bring one rebuild, and the new listener serves under the
/// later certificate.
pub proof fn law_two_reconciliations_one_rebuild(w: World, first: Answers, second: Answers)
    requires
        w.monitor.phase is Idle,
        w.serving == ServerPhase::Serving,
        changed(w.monitor.last_known, first),
        first.verified == Some(false) && first.generated && first.registered,
        changed(first.resolved, second),
        second.verified == Some(false) && second.generated && second.registered,
    ensures
        ({
            let after = reconcile(reconcile(w, first), second);
            &&& after.written == w.written + 2
            &&& serve(after).built == w.built + 1
            &&& serve(after).served == w.written + 2
            &&& serve(serve(after)) == serve(after)
        }),
{
    assert(w.monitor == idle(w.monitor.last_known));
    lemma_tick_follows_script(w.monitor.last_known, first);
    lemma_tick_counts(w.monitor.last_known, first);
    lemma_tick_follows_script(first.resolved, second);
    lemma_tick_counts(first.resolved, second);
}

} // verus!
