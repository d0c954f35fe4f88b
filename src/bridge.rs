//! The decisions of the task that moves engine events to the GUI.
//!
//! The task runs a fixed cycle: wait for the pacing timer, try to take the
//! engine without blocking, ask the engine for an event without waiting,
//! release the engine, and publish what was found. The waiting, locking,
//! polling and publishing are done by the host; this module decides, from the
//! current phase and what the host observed, which phase comes next and what
//! the host must do.
//!
//! The task stops only when the host reports `Stop` (for instance when the
//! window that receives the updates is closed); from then on it does nothing.
//! Without that report it runs for as long as the runtime that hosts it.
use vstd::prelude::*;

verus! {

/// The pacing interval between two polls of the engine, in milliseconds.
pub const POLL_INTERVAL_MS: u64 = 100;

/// Where the task stands in its cycle.
#[derive(Clone, Copy, Debug, PartialEq, Eq, Structural)]
pub enum BridgePhase {
    /// Not started yet.
    Idle,
    /// The pacing timer is armed.
    Waiting,
    /// The host is trying the lock and polling the engine.
    Polling,
    /// An event was handed to the host for publication.
    Emitting,
    /// Cancelled; the task has ended.
    Stopped,
}

/// What the host observed since the last action.
#[derive(Debug)]
pub enum BridgeInput<T> {
    /// The task was spawned.
    Start,
    /// The pacing timer fired.
    TimerElapsed,
    /// The engine was held elsewhere; this cycle is skipped.
    LockBusy,
    /// The engine was taken but had no event ready.
    NoEvent,
    /// The engine handed over this event; the engine has been released.
    EventReady(T),
    /// The publication was attempted (delivered, or dropped because the
    /// GUI model is gone: either way it is not retried).
    PublishDone,
    /// The task is cancelled.
    Stop,
}

/// What the host must do next.
#[derive(Debug)]
pub enum BridgeAction<T> {
    /// Suspend for one pacing interval, then report `TimerElapsed`.
    ArmTimer,
    /// Try the lock without blocking; if taken, poll the engine without
    /// waiting and release the lock before reporting.
    TryPoll,
    /// Publish this event as an engine-event update, then report `PublishDone`.
    Publish(T),
    /// End the task.
    Halt,
    /// The input does not belong to this phase: nothing to do.
    Nothing,
}

/// The transition table of the cycle.
pub open spec fn step_spec<T>(phase: BridgePhase, input: BridgeInput<T>) -> (BridgePhase, BridgeAction<T>) {
    match (phase, input) {
        (BridgePhase::Idle, BridgeInput::Start) => (BridgePhase::Waiting, BridgeAction::ArmTimer),
        (BridgePhase::Waiting, BridgeInput::TimerElapsed) => (BridgePhase::Polling, BridgeAction::TryPoll),
        (BridgePhase::Polling, BridgeInput::LockBusy) => (BridgePhase::Waiting, BridgeAction::ArmTimer),
        (BridgePhase::Polling, BridgeInput::NoEvent) => (BridgePhase::Waiting, BridgeAction::ArmTimer),
        (BridgePhase::Polling, BridgeInput::EventReady(e)) => (BridgePhase::Emitting, BridgeAction::Publish(e)),
        (BridgePhase::Emitting, BridgeInput::PublishDone) => (BridgePhase::Waiting, BridgeAction::ArmTimer),
        (BridgePhase::Stopped, _) => (BridgePhase::Stopped, BridgeAction::Nothing),
        (_, BridgeInput::Stop) => (BridgePhase::Stopped, BridgeAction::Halt),
        (p, _) => (p, BridgeAction::Nothing),
    }
}

/// Feeds the inputs in order to the cycle, from `phase`: the final phase and
/// the action taken for each input.
pub open spec fn run<T>(phase: BridgePhase, inputs: Seq<BridgeInput<T>>) -> (BridgePhase, Seq<BridgeAction<T>>)
    decreases inputs.len(),
{
    if inputs.len() == 0 {
        (phase, Seq::empty())
    } else {
        let (p, acts) = run(phase, inputs.drop_last());
        let (q, a) = step_spec(p, inputs.last());
        (q, acts.push(a))
    }
}

/// The events that the engine handed over, in the order reported.
pub open spec fn offered<T>(inputs: Seq<BridgeInput<T>>) -> Seq<T>
    decreases inputs.len(),
{
    if inputs.len() == 0 {
        Seq::empty()
    } else {
        match inputs.last() {
            BridgeInput::EventReady(e) => offered(inputs.drop_last()).push(e),
            _ => offered(inputs.drop_last()),
        }
    }
}

/// The events published, in the order of the actions.
pub open spec fn published<T>(actions: Seq<BridgeAction<T>>) -> Seq<T>
    decreases actions.len(),
{
    if actions.len() == 0 {
        Seq::empty()
    } else {
        match actions.last() {
            BridgeAction::Publish(e) => published(actions.drop_last()).push(e),
            _ => published(actions.drop_last()),
        }
    }
}

/// `f` places each element of `a` at a position of `b` holding the same
/// value, with positions strictly increasing: `a` is `b` with some elements
/// left out, in the same order, and no element of `b` is used twice.
pub open spec fn embeds<T>(f: Seq<int>, a: Seq<T>, b: Seq<T>) -> bool {
    &&& f.len() == a.len()
    &&& forall|i: int| 0 <= i < f.len() ==> 0 <= #[trigger] f[i] < b.len() && a[i] == b[f[i]]
    &&& forall|i: int, j: int| 0 <= i < j < f.len() ==> f[i] < f[j]
}

/// Whether `a` is `b` with some elements left out, order kept.
pub open spec fn is_subsequence<T>(a: Seq<T>, b: Seq<T>) -> bool {
    exists|f: Seq<int>| embeds(f, a, b)
}

/// The task's state: only its phase; the engine keeps the pending events.
pub struct EventBridge {
    phase: BridgePhase,
}

impl EventBridge {
    pub closed spec fn phase_spec(&self) -> BridgePhase {
        self.phase
    }

    /// A task that has not started.
    pub fn new() -> (b: Self)
        ensures
            b.phase_spec() == BridgePhase::Idle,
    {
        EventBridge { phase: BridgePhase::Idle }
    }

    /// The current phase.
    pub fn phase(&self) -> (p: BridgePhase)
        ensures
            p == self.phase_spec(),
    {
        self.phase
    }

    /// Advances the cycle by one observation and returns what to do next.
    pub fn step<T>(&mut self, input: BridgeInput<T>) -> (a: BridgeAction<T>)
        ensures
            (final(self).phase_spec(), a) == step_spec(old(self).phase_spec(), input),
    {
        let (next, action) = match (self.phase, input) {
            (BridgePhase::Idle, BridgeInput::Start) => (BridgePhase::Waiting, BridgeAction::ArmTimer),
            (BridgePhase::Waiting, BridgeInput::TimerElapsed) => (BridgePhase::Polling, BridgeAction::TryPoll),
            (BridgePhase::Polling, BridgeInput::LockBusy) => (BridgePhase::Waiting, BridgeAction::ArmTimer),
            (BridgePhase::Polling, BridgeInput::NoEvent) => (BridgePhase::Waiting, BridgeAction::ArmTimer),
            (BridgePhase::Polling, BridgeInput::EventReady(e)) => (BridgePhase::Emitting, BridgeAction::Publish(e)),
            (BridgePhase::Emitting, BridgeInput::PublishDone) => (BridgePhase::Waiting, BridgeAction::ArmTimer),
            (BridgePhase::Stopped, _) => (BridgePhase::Stopped, BridgeAction::Nothing),
            (_, BridgeInput::Stop) => (BridgePhase::Stopped, BridgeAction::Halt),
            (p, _) => (p, BridgeAction::Nothing),
        };
        self.phase = next;
        action
    }
}

/// What one try-and-poll observed: `None` when the lock was unavailable,
/// `Some(None)` when the engine had nothing ready, `Some(Some(e))` when it
/// handed over `e`.
pub fn poll_input<T>(outcome: Option<Option<T>>) -> (i: BridgeInput<T>)
    ensures
        outcome is None ==> i is LockBusy,
        outcome matches Some(None) ==> i is NoEvent,
        outcome matches Some(Some(e)) ==> i == BridgeInput::EventReady(e),
{
    match outcome {
        None => BridgeInput::LockBusy,
        Some(None) => BridgeInput::NoEvent,
        Some(Some(e)) => BridgeInput::EventReady(e),
    }
}

/// Places each published event at the position, among the events the engine
/// handed over, of the report it answered.
proof fn publication_embedding<T>(phase: BridgePhase, inputs: Seq<BridgeInput<T>>) -> (f: Seq<int>)
    ensures
        embeds(f, published(run(phase, inputs).1), offered(inputs)),
    decreases inputs.len(),
{
    if inputs.len() == 0 {
        Seq::empty()
    } else {
        let init = inputs.drop_last();
        let f0 = publication_embedding(phase, init);
        let (p, acts) = run(phase, init);
        let (q, a) = step_spec(p, inputs.last());
        let all = acts.push(a);
        assert(all.drop_last() =~= acts);
        let before = offered(init);
        match a {
            BridgeAction::Publish(e) => {
                assert(inputs.last() == BridgeInput::EventReady(e));
                let f = f0.push(before.len() as int);
                assert(published(all) == published(acts).push(e));
                assert(offered(inputs) == before.push(e));
                assert forall|i: int, j: int| 0 <= i < j < f.len() implies f[i] < f[j] by {
                    if j < f0.len() {
                        assert(f0[i] < f0[j]);
                    } else {
                        assert(0 <= f0[i] < before.len());
                    }
                }
                f
            },
            _ => {
                assert(published(all) == published(acts));
                assert forall|i: int| 0 <= i < f0.len() implies 0 <= #[trigger] f0[i] < offered(inputs).len()
                    && published(all)[i] == offered(inputs)[f0[i]] by {
                    assert(0 <= f0[i] < before.len());
                    match inputs.last() {
                        BridgeInput::EventReady(e) => {
                            assert(offered(inputs) == before.push(e));
                        },
                        _ => {},
                    }
                }
                f0
            },
        }
    }
}

/// Whatever the host reports, and in whatever phase the task starts, the
/// events it publishes are the events the engine handed over, in the same
/// order, with some possibly left out and none published twice.
pub proof fn lemma_publications_follow_engine_order<T>(phase: BridgePhase, inputs: Seq<BridgeInput<T>>)
    ensures
        is_subsequence(published(run(phase, inputs).1), offered(inputs)),
{
    let f = publication_embedding(phase, inputs);
    assert(embeds(f, published(run(phase, inputs).1), offered(inputs)));
}

/// When the engine hands over no event, nothing is ever published.
pub proof fn lemma_no_event_no_publication<T>(phase: BridgePhase, inputs: Seq<BridgeInput<T>>)
    requires
        offered(inputs).len() == 0,
    ensures
        published(run(phase, inputs).1).len() == 0,
{
    let f = publication_embedding(phase, inputs);
    let pubs = published(run(phase, inputs).1);
    assert(embeds(f, pubs, offered(inputs)));
    if pubs.len() > 0 {
        let first = f[0];
        assert(0 <= first && first < offered(inputs).len());
    }
}

/// How many times the host was asked to try the engine.
pub open spec fn poll_count<T>(actions: Seq<BridgeAction<T>>) -> nat
    decreases actions.len(),
{
    if actions.len() == 0 {
        0
    } else {
        poll_count(actions.drop_last()) + if actions.last() is TryPoll { 1nat } else { 0nat }
    }
}

/// Each publication answers a poll of its own, and a poll still under way
/// has not published yet.
pub proof fn lemma_at_most_one_publication_per_poll<T>(phase: BridgePhase, inputs: Seq<BridgeInput<T>>)
    requires
        phase != BridgePhase::Polling,
    ensures
        published(run(phase, inputs).1).len() + (if run(phase, inputs).0 == BridgePhase::Polling { 1int } else { 0int })
            <= poll_count(run(phase, inputs).1),
    decreases inputs.len(),
{
    if inputs.len() > 0 {
        let init = inputs.drop_last();
        lemma_at_most_one_publication_per_poll(phase, init);
        let (p, acts) = run(phase, init);
        let (q, a) = step_spec(p, inputs.last());
        assert(acts.push(a).drop_last() =~= acts);
    }
}

/// An uncontended interval from a waiting task: the timer fires, the engine
/// hands over `e`, and the publication is reported done. Whatever came
/// before, exactly `e` is added to the publications, once, and the task is
/// waiting again; an interval in which the engine has nothing adds none.
pub proof fn lemma_uncontended_interval<T>(phase: BridgePhase, inputs: Seq<BridgeInput<T>>, e: T)
    requires
        run(phase, inputs).0 == BridgePhase::Waiting,
    ensures
        ({
            let with_event = inputs.push(BridgeInput::TimerElapsed).push(BridgeInput::EventReady(e)).push(
                BridgeInput::PublishDone,
            );
            &&& run(phase, with_event).0 == BridgePhase::Waiting
            &&& published(run(phase, with_event).1) == published(run(phase, inputs).1).push(e)
        }),
        ({
            let without = inputs.push(BridgeInput::TimerElapsed).push(BridgeInput::NoEvent);
            &&& run(phase, without).0 == BridgePhase::Waiting
            &&& published(run(phase, without).1) == published(run(phase, inputs).1)
        }),
{
    let i1 = inputs.push(BridgeInput::TimerElapsed);
    let i2 = i1.push(BridgeInput::EventReady(e));
    let i3 = i2.push(BridgeInput::PublishDone);
    let n2 = i1.push(BridgeInput::NoEvent);
    assert(i1.drop_last() =~= inputs);
    assert(i2.drop_last() =~= i1);
    assert(i3.drop_last() =~= i2);
    assert(n2.drop_last() =~= i1);
    let a0 = run(phase, inputs).1;
    let a1 = run(phase, i1).1;
    let a2 = run(phase, i2).1;
    let a3 = run(phase, i3).1;
    let b2 = run(phase, n2).1;
    assert(a1 == a0.push(BridgeAction::<T>::TryPoll));
    assert(a1.drop_last() =~= a0);
    assert(a2 == a1.push(BridgeAction::Publish(e)));
    assert(a2.drop_last() =~= a1);
    assert(a3 == a2.push(BridgeAction::<T>::ArmTimer));
    assert(a3.drop_last() =~= a2);
    assert(b2 == a1.push(BridgeAction::<T>::ArmTimer));
    assert(b2.drop_last() =~= a1);
    assert(published(a1) == published(a0));
    assert(published(a2) == published(a1).push(e));
    assert(published(a3) == published(a2));
    assert(published(b2) == published(a1));
}

/// An event that arrives while the task is mid-cycle (polling, or publishing
/// an earlier event) is published in the next interval: the current cycle
/// ends without publishing anything more, and one uncontended interval after
/// it adds exactly `e` to the publications.
pub proof fn lemma_event_surfaces_after_current_cycle<T>(phase: BridgePhase, inputs: Seq<BridgeInput<T>>, e: T)
    requires
        run(phase, inputs).0 == BridgePhase::Polling || run(phase, inputs).0 == BridgePhase::Emitting,
    ensures
        ({
            let finish = if run(phase, inputs).0 == BridgePhase::Polling {
                BridgeInput::NoEvent
            } else {
                BridgeInput::PublishDone
            };
            let all = inputs.push(finish).push(BridgeInput::TimerElapsed).push(BridgeInput::EventReady(e)).push(
                BridgeInput::PublishDone,
            );
            &&& run(phase, all).0 == BridgePhase::Waiting
            &&& published(run(phase, all).1) == published(run(phase, inputs).1).push(e)
        }),
{
    let finish = if run(phase, inputs).0 == BridgePhase::Polling {
        BridgeInput::NoEvent
    } else {
        BridgeInput::PublishDone
    };
    let mid = inputs.push(finish);
    assert(mid.drop_last() =~= inputs);
    let a0 = run(phase, inputs).1;
    let a1 = run(phase, mid).1;
    assert(a1 == a0.push(BridgeAction::<T>::ArmTimer));
    assert(a1.drop_last() =~= a0);
    assert(published(a1) == published(a0));
    lemma_uncontended_interval(phase, mid, e);
}

} // verus!
