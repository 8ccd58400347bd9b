use crate::monitor::{idle, transition, ActionView, EventView, MonitorView};
use vstd::prelude::*;

verus! {

/// How the outside answers the monitor during one tick. An answer to a
/// question that the tick never asks is not looked at.
pub struct Answers {
    /// The public address, where it could be resolved.
    pub resolved: Option<Seq<char>>,
    /// Whether the platform delivers to the address, where it could be asked.
    pub verified: Option<bool>,
    /// Whether the certificate could be made and written.
    pub generated: bool,
    /// Whether the platform took the registration.
    pub registered: bool,
}

/// The kinds of action, without what they carry.
pub enum Kind {
    Resolve,
    Verify,
    Generate,
    Register,
    SignalRestart,
    Sleep,
}

/// The kind of `action`.
pub open spec fn kind_of(action: ActionView) -> Kind {
    match action {
        ActionView::Resolve => Kind::Resolve,
        ActionView::Verify(_) => Kind::Verify,
        ActionView::Generate(_) => Kind::Generate,
        ActionView::Register(_) => Kind::Register,
        ActionView::SignalRestart => Kind::SignalRestart,
        ActionView::Sleep => Kind::Sleep,
    }
}

/// How many of `actions` are of the given kind.
pub open spec fn count(actions: Seq<ActionView>, kind: Kind) -> nat
    decreases actions.len(),
{
    if actions.len() == 0 {
        0
    } else {
        let rest = count(actions.drop_last(), kind);
        if kind_of(actions.last()) == kind {
            rest + 1
        } else {
            rest
        }
    }
}

/// What the outside reports after it has carried out `action`.
pub open spec fn report(action: ActionView, answers: Answers) -> EventView {
    match action {
        ActionView::Resolve => match answers.resolved {
            Some(address) => EventView::Resolved(address),
            None => EventView::ResolveFailed,
        },
        ActionView::Verify(_) => match answers.verified {
            Some(configured) => EventView::Verified(configured),
            None => EventView::VerifyFailed,
        },
        ActionView::Generate(_) => if answers.generated {
            EventView::Generated
        } else {
            EventView::GenerateFailed
        },
        ActionView::Register(_) => if answers.registered {
            EventView::Registered
        } else {
            EventView::RegisterFailed
        },
        ActionView::SignalRestart => EventView::Signalled,
        ActionView::Sleep => EventView::Tick,
    }
}

/// The monitor and the outside in turn: the monitor takes `event`, the
/// outside carries out what is asked and reports, until the monitor asks to
/// sleep or `steps` further rounds are used up. Gives the monitor at the
/// end and everything that was asked for, in order.
pub open spec fn play(m: MonitorView, event: EventView, answers: Answers, steps: nat) -> (
    MonitorView,
    Seq<ActionView>,
)
    decreases steps,
{
    let (next, action) = transition(m, event);
    if action is Sleep || steps == 0 {
        (next, seq![action])
    } else {
        let (end, rest) = play(next, report(action, answers), answers, (steps - 1) as nat);
        (end, seq![action] + rest)
    }
}

/// One tick of the monitor `m` against the given answers.
pub open spec fn tick(m: MonitorView, answers: Answers) -> (MonitorView, Seq<ActionView>) {
    play(m, EventView::Tick, answers, 5)
}

/// Tick after tick, each against its own answers.
pub open spec fn run(m: MonitorView, ticks: Seq<Answers>) -> (MonitorView, Seq<ActionView>)
    decreases ticks.len(),
{
    if ticks.len() == 0 {
        (m, Seq::empty())
    } else {
        let (mid, head) = tick(m, ticks.first());
        let (end, tail) = run(mid, ticks.drop_first());
        (end, head + tail)
    }
}

/// Whether a tick with these answers, begun with `last` on record, finds
/// the address changed.
pub open spec fn changed(last: Option<Seq<char>>, answers: Answers) -> bool {
    answers.resolved is Some && answers.resolved != last
}

/// Whether a reconciliation with these answers goes through to its end.
pub open spec fn completes(answers: Answers) -> bool {
    ||| answers.verified == Some(true)
    ||| answers.verified == Some(false) && answers.generated && answers.registered
}

/// The address on record after a tick with these answers that began with
/// `last` on record.
pub open spec fn recorded_after(last: Option<Seq<char>>, answers: Answers) -> Option<Seq<char>> {
    if changed(last, answers) && completes(answers) {
        answers.resolved
    } else {
        last
    }
}

/// What a reconciliation of `address` asks for, in order.
pub open spec fn reconciliation(address: Seq<char>, answers: Answers) -> Seq<ActionView> {
    seq![ActionView::Verify(address)] + (if answers.verified == Some(false) {
        seq![ActionView::Generate(address)] + (if answers.generated {
            seq![ActionView::Register(address)] + (if answers.registered {
                seq![ActionView::SignalRestart] + seq![ActionView::Sleep]
            } else {
                seq![ActionView::Sleep]
            })
        } else {
            seq![ActionView::Sleep]
        })
    } else {
        seq![ActionView::Sleep]
    })
}

/// What a tick asks for, in order, when it begins with `last` on record.
pub open spec fn script(last: Option<Seq<char>>, answers: Answers) -> Seq<ActionView> {
    seq![ActionView::Resolve] + (if changed(last, answers) {
        reconciliation(answers.resolved->0, answers)
    } else {
        seq![ActionView::Sleep]
    })
}

/// The number of ticks that find the address changed: a tick counts when
/// its address is resolved and differs from the one resolved last before
/// it, or from `last` where none was.
pub open spec fn changes(last: Option<Seq<char>>, ticks: Seq<Answers>) -> nat
    decreases ticks.len(),
{
    if ticks.len() == 0 {
        0
    } else if changed(last, ticks.first()) {
        1 + changes(ticks.first().resolved, ticks.drop_first())
    } else {
        changes(last, ticks.drop_first())
    }
}

/// The number of ticks that find the address different from the one on
/// record at that time.
pub open spec fn attempts(last: Option<Seq<char>>, ticks: Seq<Answers>) -> nat
    decreases ticks.len(),
{
    if ticks.len() == 0 {
        0
    } else {
        let rest = attempts(recorded_after(last, ticks.first()), ticks.drop_first());
        if changed(last, ticks.first()) {
            1 + rest
        } else {
            rest
        }
    }
}

/// Counting goes through concatenation.
pub proof fn lemma_count_add(a: Seq<ActionView>, b: Seq<ActionView>, kind: Kind)
    ensures
        count(a + b, kind) == count(a, kind) + count(b, kind),
    decreases b.len(),
{
    if b.len() == 0 {
        assert(a + b =~= a);
    } else {
        assert((a + b).drop_last() =~= a + b.drop_last());
        lemma_count_add(a, b.drop_last(), kind);
    }
}

/// A single action counts for its own kind and for no other.
pub proof fn lemma_count_one(action: ActionView, kind: Kind)
    ensures
        count(seq![action], kind) == if kind_of(action) == kind {
            1nat
        } else {
            0nat
        },
{
    assert(seq![action].drop_last().len() == 0);
    assert(count(seq![action].drop_last(), kind) == 0);
}

/// A tick of an idle monitor asks for what `script` lists and leaves the
/// monitor idle, with `recorded_after` on record.
pub proof fn lemma_tick_follows_script(last: Option<Seq<char>>, answers: Answers)
    ensures
        tick(idle(last), answers) == (
            idle(recorded_after(last, answers)),
            script(last, answers),
        ),
{
    reveal_with_fuel(play, 7);
}

/// How often a tick of an idle monitor asks for each kind of action.
pub proof fn lemma_tick_counts(last: Option<Seq<char>>, answers: Answers)
    ensures
        ({
            let asked = tick(idle(last), answers).1;
            let reached_generate = changed(last, answers) && answers.verified == Some(false);
            &&& count(asked, Kind::Resolve) == 1
            &&& count(asked, Kind::Sleep) == 1
            &&& count(asked, Kind::Verify) == if changed(last, answers) {
                1nat
            } else {
                0nat
            }
            &&& count(asked, Kind::Generate) == if reached_generate {
                1nat
            } else {
                0nat
            }
            &&& count(asked, Kind::Register) == if reached_generate && answers.generated {
                1nat
            } else {
                0nat
            }
            &&& count(asked, Kind::SignalRestart) == if reached_generate && answers.generated
                && answers.registered {
                1nat
            } else {
                0nat
            }
        }),
{
    lemma_tick_follows_script(last, answers);
    lemma_script_counts(last, answers, Kind::Resolve);
    lemma_script_counts(last, answers, Kind::Sleep);
    lemma_script_counts(last, answers, Kind::Verify);
    lemma_script_counts(last, answers, Kind::Generate);
    lemma_script_counts(last, answers, Kind::Register);
    lemma_script_counts(last, answers, Kind::SignalRestart);
}

proof fn lemma_script_counts(last: Option<Seq<char>>, answers: Answers, kind: Kind)
    ensures
        ({
            let reached_generate = changed(last, answers) && answers.verified == Some(false);
            let expected = match kind {
                Kind::Resolve => true,
                Kind::Sleep => true,
                Kind::Verify => changed(last, answers),
                Kind::Generate => reached_generate,
                Kind::Register => reached_generate && answers.generated,
                Kind::SignalRestart => reached_generate && answers.generated
                    && answers.registered,
            };
            count(script(last, answers), kind) == if expected {
                1nat
            } else {
                0nat
            }
        }),
{
    let address = answers.resolved->0;
    let sleep = seq![ActionView::Sleep];
    let signal = seq![ActionView::SignalRestart] + sleep;
    let register = seq![ActionView::Register(address)] + (if answers.registered {
        signal
    } else {
        sleep
    });
    let generate = seq![ActionView::Generate(address)] + (if answers.generated {
        register
    } else {
        sleep
    });
    let verify = seq![ActionView::Verify(address)] + (if answers.verified == Some(false) {
        generate
    } else {
        sleep
    });
    lemma_count_one(ActionView::Sleep, kind);
    lemma_count_one(ActionView::SignalRestart, kind);
    lemma_count_one(ActionView::Register(address), kind);
    lemma_count_one(ActionView::Generate(address), kind);
    lemma_count_one(ActionView::Verify(address), kind);
    lemma_count_one(ActionView::Resolve, kind);
    lemma_count_add(seq![ActionView::SignalRestart], sleep, kind);
    lemma_count_add(seq![ActionView::Register(address)], signal, kind);
    lemma_count_add(seq![ActionView::Register(address)], sleep, kind);
    lemma_count_add(seq![ActionView::Generate(address)], register, kind);
    lemma_count_add(seq![ActionView::Generate(address)], sleep, kind);
    lemma_count_add(seq![ActionView::Verify(address)], generate, kind);
    lemma_count_add(seq![ActionView::Verify(address)], sleep, kind);
    lemma_count_add(seq![ActionView::Resolve], verify, kind);
    lemma_count_add(seq![ActionView::Resolve], sleep, kind);
    assert(reconciliation(address, answers) == verify);
}

/// Over any run of ticks, a reconciliation is begun at exactly those ticks
/// that resolve an address other than the one on record, the run ends
/// between two ticks, and nothing is asked for in between but what the
/// ticks ask for.
pub proof fn law_reconciled_where_record_differs(last: Option<Seq<char>>, ticks: Seq<Answers>)
    ensures
        count(run(idle(last), ticks).1, Kind::Verify) == attempts(last, ticks),
        run(idle(last), ticks).0.phase is Idle,
    decreases ticks.len(),
{
    if ticks.len() > 0 {
        let first = ticks.first();
        lemma_tick_follows_script(last, first);
        lemma_tick_counts(last, first);
        let recorded = recorded_after(last, first);
        law_reconciled_where_record_differs(recorded, ticks.drop_first());
        lemma_count_add(
            tick(idle(last), first).1,
            run(idle(recorded), ticks.drop_first()).1,
            Kind::Verify,
        );
    }
}

/// For every sequence of resolution results whose reconciliations all go
/// through, a reconciliation is begun exactly once for each change of the
/// address, and at no tick that finds the address as it was.
pub proof fn law_reconciled_once_per_change(last: Option<Seq<char>>, ticks: Seq<Answers>)
    requires
        forall|i: int| 0 <= i < ticks.len() ==> completes(#[trigger] ticks[i]),
    ensures
        count(run(idle(last), ticks).1, Kind::Verify) == changes(last, ticks),
    decreases ticks.len(),
{
    law_reconciled_where_record_differs(last, ticks);
    lemma_attempts_are_changes(last, ticks);
}

proof fn lemma_attempts_are_changes(last: Option<Seq<char>>, ticks: Seq<Answers>)
    requires
        forall|i: int| 0 <= i < ticks.len() ==> completes(#[trigger] ticks[i]),
    ensures
        attempts(last, ticks) == changes(last, ticks),
    decreases ticks.len(),
{
    if ticks.len() > 0 {
        let first = ticks.first();
        let rest = ticks.drop_first();
        assert(completes(ticks[0]));
        assert forall|i: int| 0 <= i < rest.len() implies completes(#[trigger] rest[i]) by {
            assert(rest[i] == ticks[i + 1]);
        }
        lemma_attempts_are_changes(recorded_after(last, first), rest);
    }
}

/// A tick that finds the address as it is on record asks for nothing but
/// the address, and leaves the record alone.
pub proof fn law_unchanged_address_is_left_alone(last: Option<Seq<char>>, answers: Answers)
    requires
        !changed(last, answers),
    ensures
        tick(idle(last), answers) == (
            idle(last),
            seq![ActionView::Resolve] + seq![ActionView::Sleep],
        ),
{
    lemma_tick_follows_script(last, answers);
}

/// Where the platform already delivers to the address, no certificate is
/// made, nothing is registered and no restart is signalled: whatever the
/// monitor is doing, that answer sends it to sleep, and the tick that gets
/// it asks for the address and the platform's word only.
pub proof fn law_configured_address_is_skipped(
    m: MonitorView,
    last: Option<Seq<char>>,
    answers: Answers,
)
    requires
        answers.verified == Some(true),
    ensures
        transition(m, EventView::Verified(true)).1 is Sleep,
        count(tick(idle(last), answers).1, Kind::Generate) == 0,
        count(tick(idle(last), answers).1, Kind::Register) == 0,
        count(tick(idle(last), answers).1, Kind::SignalRestart) == 0,
        changed(last, answers) ==> tick(idle(last), answers).0 == idle(answers.resolved),
{
    lemma_tick_follows_script(last, answers);
    lemma_tick_counts(last, answers);
}

/// A reconciliation that fails raises no restart signal and leaves the
/// record as it was, so that the next tick that resolves the same address
/// begins the reconciliation anew. Where it is the certificate that fails,
/// nothing is registered either.
pub proof fn law_failed_cycle_is_retried(
    last: Option<Seq<char>>,
    answers: Answers,
    later: Answers,
)
    requires
        changed(last, answers),
        !completes(answers),
        later.resolved == answers.resolved,
    ensures
        count(tick(idle(last), answers).1, Kind::SignalRestart) == 0,
        !answers.generated ==> count(tick(idle(last), answers).1, Kind::Register) == 0,
        tick(idle(last), answers).0 == idle(last),
        count(tick(tick(idle(last), answers).0, later).1, Kind::Verify) == 1,
{
    lemma_tick_follows_script(last, answers);
    lemma_tick_counts(last, answers);
    lemma_tick_counts(last, later);
}

/// The restart signal is raised only at the end of a reconciliation that
/// went through: a tick that raises it has asked, in this order, for the
/// address, the platform's word, the certificate and the registration, and
/// the last two have succeeded.
pub proof fn law_signal_follows_registration(last: Option<Seq<char>>, answers: Answers)
    requires
        count(tick(idle(last), answers).1, Kind::SignalRestart) > 0,
    ensures
        answers.resolved is Some,
        answers.verified == Some(false),
        answers.generated,
        answers.registered,
        tick(idle(last), answers).1 == seq![ActionView::Resolve] + (seq![
            ActionView::Verify(answers.resolved->0),
        ] + (seq![ActionView::Generate(answers.resolved->0)] + (seq![
            ActionView::Register(answers.resolved->0),
        ] + (seq![ActionView::SignalRestart] + seq![ActionView::Sleep])))),
        tick(idle(last), answers).0 == idle(answers.resolved),
{
    lemma_tick_follows_script(last, answers);
    lemma_tick_counts(last, answers);
}

} // verus!
