use vstd::prelude::*;

use crate::action::Action;
use crate::home::{dispatch_spec, dispatch_all, Home};

verus! {

/// Why the tasks are being torn down.
#[derive(Debug, Clone, Copy, PartialEq, Eq, Structural)]
pub enum Teardown {
    Suspend,
    Quit,
}

/// Where the dispatch loop stands.
#[derive(Debug, Clone, Copy, PartialEq, Eq, Structural)]
pub enum Phase {
    /// Blocked until the next command arrives.
    Waiting,
    /// Taking the commands that are already queued, without blocking.
    Draining,
    /// A command was taken; its render signal or trace goes out before it is
    /// applied.
    Applying(Action),
    /// Both tasks were told to stop; waiting for the render task to end.
    AwaitRender(Teardown),
    /// The render task has ended; waiting for the input task to end.
    AwaitInput(Teardown),
    /// Both tasks have ended; the process is suspended until it resumes.
    Suspended,
    /// Both tasks have ended after a quit: the loop is over.
    Finished,
}

/// What the runtime reports to the dispatch loop.
#[derive(Debug, Clone, Copy, PartialEq, Eq, Structural)]
pub enum LoopEvent {
    /// A command was taken from the command queue.
    Command(Action),
    /// The effects asked for on taking a command have been performed.
    Noticed,
    /// The command queue held nothing more.
    Empty,
    /// The render task has ended.
    RenderStopped,
    /// The input task has ended.
    InputStopped,
    /// The process has come back from a suspend.
    Resumed,
}

/// What the dispatch loop asks the runtime to do, in order.
#[derive(Debug, Clone, Copy, PartialEq, Eq, Structural)]
pub enum Effect {
    /// Send a render signal to the render task; a closed channel is ignored.
    Render,
    /// Record a diagnostic trace of a command.
    Trace(Action),
    /// Report `Noticed`, so that the command just taken is applied.
    Apply,
    /// Put a command back on the command queue.
    Enqueue(Action),
    /// Block for the next command and report it.
    Receive,
    /// Take the next command if one is queued, else report `Empty`.
    TryReceive,
    /// Send the stop signal to the render task.
    StopRender,
    /// Tell the input task to stop.
    StopInput,
    /// Wait for the render task to end and report `RenderStopped`.
    AwaitRender,
    /// Wait for the input task to end and report `InputStopped`.
    AwaitInput,
    /// Suspend the process and report `Resumed` once it continues.
    SuspendProcess,
    /// Start fresh render and input tasks, with fresh channels.
    Respawn,
    /// The loop is over: return successfully.
    Finish,
}

/// Whether the tasks are being torn down or the process is suspended.
pub open spec fn in_teardown(p: Phase) -> bool {
    p is AwaitRender || p is AwaitInput || p is Suspended
}

/// What the loop does on the sight of a command, before applying it.
pub open spec fn notice(a: Action) -> Seq<Effect> {
    if a == Action::RenderTick {
        seq![Effect::Render]
    } else if a == Action::Tick {
        seq![]
    } else {
        seq![Effect::Trace(a)]
    }
}

/// The effect that puts a follow-up back on the queue, if there is one.
pub open spec fn queued(f: Option<Action>) -> Seq<Effect> {
    match f {
        Some(b) => seq![Effect::Enqueue(b)],
        None => seq![],
    }
}

/// The effects that start a teardown.
pub open spec fn stop_both() -> Seq<Effect> {
    seq![Effect::StopRender, Effect::StopInput, Effect::AwaitRender]
}

/// One step of the dispatch loop: the next phase, the next state and the
/// effects to perform. An event that the phase does not wait for changes
/// nothing and asks for nothing.
pub open spec fn step_spec(p: Phase, h: Home, ev: LoopEvent) -> (Phase, Home, Seq<Effect>) {
    match ev {
        LoopEvent::Command(a) => if p is Waiting || p is Draining {
            (Phase::Applying(a), h, notice(a) + seq![Effect::Apply])
        } else {
            (p, h, seq![])
        },
        LoopEvent::Noticed => match p {
            Phase::Applying(a) => {
                let (h2, f) = dispatch_spec(h, a);
                (Phase::Draining, h2, queued(f) + seq![Effect::TryReceive])
            },
            _ => (p, h, seq![]),
        },
        LoopEvent::Empty => if p is Waiting || p is Draining {
            if h.should_suspend {
                (Phase::AwaitRender(Teardown::Suspend), h, stop_both())
            } else if h.should_quit {
                (Phase::AwaitRender(Teardown::Quit), h, stop_both())
            } else {
                (Phase::Waiting, h, seq![Effect::Receive])
            }
        } else {
            (p, h, seq![])
        },
        LoopEvent::RenderStopped => match p {
            Phase::AwaitRender(t) => (Phase::AwaitInput(t), h, seq![Effect::AwaitInput]),
            _ => (p, h, seq![]),
        },
        LoopEvent::InputStopped => match p {
            Phase::AwaitInput(Teardown::Suspend) => (Phase::Suspended, h, seq![Effect::SuspendProcess]),
            Phase::AwaitInput(Teardown::Quit) => (Phase::Finished, h, seq![Effect::Finish]),
            _ => (p, h, seq![]),
        },
        LoopEvent::Resumed => match p {
            Phase::Suspended => (
                Phase::Waiting,
                h,
                seq![Effect::Respawn, Effect::Enqueue(Action::Resume), Effect::Receive],
            ),
            _ => (p, h, seq![]),
        },
    }
}

/// The steps of the loop over a sequence of events: the last phase and
/// state, and all effects in order.
pub open spec fn run_spec(p: Phase, h: Home, evs: Seq<LoopEvent>) -> (Phase, Home, Seq<Effect>)
    decreases evs.len(),
{
    if evs.len() == 0 {
        (p, h, seq![])
    } else {
        let (p1, h1, e1) = step_spec(p, h, evs[0]);
        let (p2, h2, e2) = run_spec(p1, h1, evs.drop_first());
        (p2, h2, e1 + e2)
    }
}

/// The events that report each of `acts` taken from the queue in turn, each
/// followed by the report that its notice was performed.
pub open spec fn commands(acts: Seq<Action>) -> Seq<LoopEvent>
    decreases acts.len(),
{
    if acts.len() == 0 {
        seq![]
    } else {
        seq![LoopEvent::Command(acts[0]), LoopEvent::Noticed] + commands(acts.drop_first())
    }
}

/// An effect that blocks the loop or tears the tasks down.
pub open spec fn halts_draining(e: Effect) -> bool {
    e is Receive || e is StopRender || e is StopInput || e is AwaitRender || e is AwaitInput
        || e is SuspendProcess || e is Finish
}

/// A phase in which no draw may be asked for until fresh tasks are started.
pub open spec fn quiet(p: Phase) -> bool {
    in_teardown(p) || p is Finished
}

/// Running the loop over `evs` and then `ev` is running it over `evs`, then
/// taking one step on `ev`.
pub proof fn lemma_run_push(p: Phase, h: Home, evs: Seq<LoopEvent>, ev: LoopEvent)
    ensures
        ({
            let (p1, h1, e1) = run_spec(p, h, evs);
            let (p2, h2, e2) = step_spec(p1, h1, ev);
            run_spec(p, h, evs.push(ev)) == (p2, h2, e1 + e2)
        }),
    decreases evs.len(),
{
    let evs2 = evs.push(ev);
    assert(evs2[evs2.len() - 1] == ev);
    if evs.len() == 0 {
        assert(evs2.drop_first() =~= Seq::<LoopEvent>::empty());
        assert(evs2[0] == ev);
        let (p2, h2, e2) = step_spec(p, h, ev);
        assert(run_spec(p2, h2, evs2.drop_first()) == (p2, h2, Seq::<Effect>::empty()));
        assert(e2 + Seq::<Effect>::empty() =~= e2);
        assert(Seq::<Effect>::empty() + e2 =~= e2);
    } else {
        assert(evs2[0] == evs[0]);
        let (q, hq, eq) = step_spec(p, h, evs[0]);
        assert(evs2.drop_first() =~= evs.drop_first().push(ev));
        lemma_run_push(q, hq, evs.drop_first(), ev);
        let (p1, h1, e1) = run_spec(p, h, evs);
        let (p2, h2, e2) = step_spec(p1, h1, ev);
        let (_r, _hr, er) = run_spec(q, hq, evs.drop_first());
        assert(eq + (er + e2) =~= (eq + er) + e2);
    }
}

/// Draining: when `acts` are queued as the loop wakes, all of them are
/// applied in order before it blocks again or looks at the suspend and quit
/// flags; the flags are then read from the state that all of them made.
pub proof fn lemma_drain_applies_all(p: Phase, h: Home, acts: Seq<Action>)
    requires
        p is Waiting || p is Draining,
        acts.len() > 0,
    ensures
        ({
            let (p2, h2, effs) = run_spec(p, h, commands(acts));
            &&& p2 == Phase::Draining
            &&& h2 == dispatch_all(h, acts)
            &&& effs.last() == Effect::TryReceive
            &&& forall|i: int| 0 <= i < effs.len() ==> !halts_draining(#[trigger] effs[i])
            &&& run_spec(p, h, commands(acts).push(LoopEvent::Empty))
                == ({
                let (p3, h3, e3) = step_spec(p2, h2, LoopEvent::Empty);
                (p3, h3, effs + e3)
            })
        }),
    decreases acts.len(),
{
    let evs = commands(acts);
    let rest = commands(acts.drop_first());
    assert(evs[0] == LoopEvent::Command(acts[0]));
    assert(evs.drop_first() =~= seq![LoopEvent::Noticed] + rest);
    assert(evs.drop_first()[0] == LoopEvent::Noticed);
    assert(evs.drop_first().drop_first() =~= rest);
    let (pc, hc, ec) = step_spec(p, h, LoopEvent::Command(acts[0]));
    assert(pc == Phase::Applying(acts[0]) && hc == h);
    let (p1, h1, en) = step_spec(pc, hc, LoopEvent::Noticed);
    assert(h1 == dispatch_spec(h, acts[0]).0);
    assert(p1 == Phase::Draining);
    assert(en.last() == Effect::TryReceive);
    assert(forall|i: int| 0 <= i < ec.len() ==> !halts_draining(#[trigger] ec[i]));
    assert(forall|i: int| 0 <= i < en.len() ==> !halts_draining(#[trigger] en[i]));
    let (p2, h2, effs) = run_spec(p, h, evs);
    let (_q2, _g2, e2) = run_spec(p1, h1, rest);
    assert(run_spec(pc, hc, evs.drop_first()).2 == en + e2);
    assert(effs == ec + (en + e2));
    if acts.len() == 1 {
        assert(acts.drop_first() =~= Seq::<Action>::empty());
        assert(rest == Seq::<LoopEvent>::empty());
        assert(dispatch_all(h1, acts.drop_first()) == h1);
        assert(e2 == Seq::<Effect>::empty());
        assert(en + e2 =~= en);
    } else {
        lemma_drain_applies_all(p1, h1, acts.drop_first());
    }
    let tail = en + e2;
    assert(tail.last() == Effect::TryReceive);
    assert forall|i: int| 0 <= i < tail.len() implies !halts_draining(#[trigger] tail[i]) by {
        if i >= en.len() {
            assert(tail[i] == e2[i - en.len()]);
        }
    }
    assert(effs.last() == tail.last());
    assert forall|i: int| 0 <= i < effs.len() implies !halts_draining(#[trigger] effs[i]) by {
        if i >= ec.len() {
            assert(effs[i] == tail[i - ec.len()]);
        }
    }
    assert(h2 == dispatch_all(h, acts));
    lemma_run_push(p, h, evs, LoopEvent::Empty);
}

/// Suspend wins over quit: when both flags are set as the queue runs dry,
/// the tasks are stopped for a suspend, and after the process resumes fresh
/// tasks are started and the loop goes on.
pub proof fn lemma_suspend_before_quit(p: Phase, h: Home)
    requires
        p is Waiting || p is Draining,
        h.should_suspend,
        h.should_quit,
    ensures
        step_spec(p, h, LoopEvent::Empty).0 == Phase::AwaitRender(Teardown::Suspend),
        run_spec(
            p,
            h,
            seq![LoopEvent::Empty, LoopEvent::RenderStopped, LoopEvent::InputStopped, LoopEvent::Resumed],
        ).0 == Phase::Waiting,
        run_spec(
            p,
            h,
            seq![LoopEvent::Empty, LoopEvent::RenderStopped, LoopEvent::InputStopped, LoopEvent::Resumed],
        ).2.contains(Effect::Respawn),
{
    lemma_suspend_round_trip(p, h);
    let effs = run_spec(
        p,
        h,
        seq![LoopEvent::Empty, LoopEvent::RenderStopped, LoopEvent::InputStopped, LoopEvent::Resumed],
    ).2;
    assert(effs[5] == Effect::Respawn);
}

/// Teardown order: the input task is awaited only once the render task has
/// ended, and the process is suspended or the loop finished only once the
/// input task has ended too.
pub proof fn lemma_render_awaited_first(p: Phase, h: Home, ev: LoopEvent)
    ensures
        step_spec(p, h, ev).2.contains(Effect::AwaitInput) ==> p is AwaitRender && ev
            == LoopEvent::RenderStopped,
        step_spec(p, h, ev).2.contains(Effect::SuspendProcess) ==> p == Phase::AwaitInput(
            Teardown::Suspend,
        ) && ev == LoopEvent::InputStopped,
        step_spec(p, h, ev).2.contains(Effect::Finish) ==> p == Phase::AwaitInput(Teardown::Quit)
            && ev == LoopEvent::InputStopped,
{
    let e = step_spec(p, h, ev).2;
    if e.contains(Effect::AwaitInput) || e.contains(Effect::SuspendProcess) || e.contains(
        Effect::Finish,
    ) {
        let i = choose|i: int| 0 <= i < e.len() && (e[i] == Effect::AwaitInput || e[i]
            == Effect::SuspendProcess || e[i] == Effect::Finish);
        match ev {
            LoopEvent::Command(a) => {
                if p is Waiting || p is Draining {
                    let n = notice(a);
                    if i >= n.len() {
                        assert(e[i] == Effect::Apply);
                    }
                }
            },
            LoopEvent::Noticed => {
                if let Phase::Applying(a) = p {
                    let q = queued(dispatch_spec(h, a).1);
                    if i < q.len() {
                        assert(e[i] == q[i]);
                    } else {
                        assert(e[i] == Effect::TryReceive);
                    }
                }
            },
            _ => {},
        }
    }
}

/// A render signal goes out before the render tick is applied: the only
/// step that asks for one is the taking of a render tick, which leaves the
/// state as it was and leaves the tick to be applied on the next step.
pub proof fn lemma_render_before_apply(p: Phase, h: Home, ev: LoopEvent)
    ensures
        step_spec(p, h, ev).2.contains(Effect::Render) ==> {
            &&& ev == LoopEvent::Command(Action::RenderTick)
            &&& step_spec(p, h, ev).0 == Phase::Applying(Action::RenderTick)
            &&& step_spec(p, h, ev).1 == h
        },
{
    let e = step_spec(p, h, ev).2;
    if e.contains(Effect::Render) {
        let i = choose|i: int| 0 <= i < e.len() && e[i] == Effect::Render;
        match ev {
            LoopEvent::Command(a) => {
                let n = notice(a);
                if i >= n.len() {
                    assert(e[i] == Effect::Apply);
                }
            },
            LoopEvent::Noticed => {
                if let Phase::Applying(a) = p {
                    let q = queued(dispatch_spec(h, a).1);
                    if i < q.len() {
                        assert(e[i] == q[i]);
                    } else {
                        assert(e[i] == Effect::TryReceive);
                    }
                }
            },
            _ => {},
        }
    }
}

/// No draw after stop: once the tasks are told to stop, no render signal is
/// asked for until fresh tasks have been started, whatever events follow.
pub proof fn lemma_no_render_after_stop(p: Phase, h: Home, evs: Seq<LoopEvent>)
    requires
        quiet(p),
    ensures
        ({
            let effs = run_spec(p, h, evs).2;
            forall|i: int|
                0 <= i < effs.len() && #[trigger] effs[i] == Effect::Render ==> exists|j: int|
                    0 <= j < i && effs[j] == Effect::Respawn
        }),
    decreases evs.len(),
{
    if evs.len() > 0 {
        let (p1, h1, e1) = step_spec(p, h, evs[0]);
        let e2 = run_spec(p1, h1, evs.drop_first()).2;
        let effs = e1 + e2;
        if p == Phase::Suspended && evs[0] == LoopEvent::Resumed {
            assert forall|i: int|
                0 <= i < effs.len() && #[trigger] effs[i] == Effect::Render implies exists|j: int|
                0 <= j < i && effs[j] == Effect::Respawn by {
                assert(effs[0] == Effect::Respawn);
            }
        } else {
            assert(quiet(p1));
            assert(forall|k: int| 0 <= k < e1.len() ==> e1[k] != Effect::Render);
            lemma_no_render_after_stop(p1, h1, evs.drop_first());
            assert forall|i: int|
                0 <= i < effs.len() && #[trigger] effs[i] == Effect::Render implies exists|j: int|
                0 <= j < i && effs[j] == Effect::Respawn by {
                assert(effs[i] == e2[i - e1.len()]);
                let j = choose|j: int| 0 <= j < i - e1.len() && e2[j] == Effect::Respawn;
                assert(effs[j + e1.len()] == Effect::Respawn);
            }
        }
    }
}

/// Suspend and resume: the tasks are stopped in order, the process suspends,
/// fresh tasks are started and a single resume command is queued. Applied,
/// that command clears the suspend flag, and a render tick then sends the
/// fresh render task a render signal.
pub proof fn lemma_suspend_round_trip(p: Phase, h: Home)
    requires
        p is Waiting || p is Draining,
        h.should_suspend,
    ensures
        run_spec(
            p,
            h,
            seq![LoopEvent::Empty, LoopEvent::RenderStopped, LoopEvent::InputStopped, LoopEvent::Resumed],
        ) == (
            Phase::Waiting,
            h,
            seq![
                Effect::StopRender,
                Effect::StopInput,
                Effect::AwaitRender,
                Effect::AwaitInput,
                Effect::SuspendProcess,
                Effect::Respawn,
                Effect::Enqueue(Action::Resume),
                Effect::Receive,
            ],
        ),
        !h.should_quit ==> run_spec(
            Phase::Waiting,
            h,
            seq![
                LoopEvent::Command(Action::Resume),
                LoopEvent::Noticed,
                LoopEvent::Command(Action::RenderTick),
                LoopEvent::Noticed,
                LoopEvent::Empty,
            ],
        ) == (
            Phase::Waiting,
            dispatch_spec(dispatch_spec(h, Action::Resume).0, Action::RenderTick).0,
            seq![
                Effect::Trace(Action::Resume),
                Effect::Apply,
                Effect::TryReceive,
                Effect::Render,
                Effect::Apply,
                Effect::TryReceive,
                Effect::Receive,
            ],
        ),
{
    reveal_with_fuel(run_spec, 5);
    let evs = seq![LoopEvent::Empty, LoopEvent::RenderStopped, LoopEvent::InputStopped, LoopEvent::Resumed];
    assert(evs.drop_first() =~= seq![LoopEvent::RenderStopped, LoopEvent::InputStopped, LoopEvent::Resumed]);
    assert(evs.drop_first().drop_first() =~= seq![LoopEvent::InputStopped, LoopEvent::Resumed]);
    assert(evs.drop_first().drop_first().drop_first() =~= seq![LoopEvent::Resumed]);
    assert(evs.drop_first().drop_first().drop_first().drop_first() =~= seq![]);
    assert(run_spec(p, h, evs).2 =~= seq![
        Effect::StopRender,
        Effect::StopInput,
        Effect::AwaitRender,
        Effect::AwaitInput,
        Effect::SuspendProcess,
        Effect::Respawn,
        Effect::Enqueue(Action::Resume),
        Effect::Receive,
    ]);
    if !h.should_quit {
        reveal_with_fuel(run_spec, 6);
        let cs = seq![
            LoopEvent::Command(Action::Resume),
            LoopEvent::Noticed,
            LoopEvent::Command(Action::RenderTick),
            LoopEvent::Noticed,
            LoopEvent::Empty,
        ];
        let c1 = cs.drop_first();
        let c2 = c1.drop_first();
        let c3 = c2.drop_first();
        let c4 = c3.drop_first();
        assert(c1 =~= seq![
            LoopEvent::Noticed,
            LoopEvent::Command(Action::RenderTick),
            LoopEvent::Noticed,
            LoopEvent::Empty,
        ]);
        assert(c2 =~= seq![LoopEvent::Command(Action::RenderTick), LoopEvent::Noticed, LoopEvent::Empty]);
        assert(c3 =~= seq![LoopEvent::Noticed, LoopEvent::Empty]);
        assert(c4 =~= seq![LoopEvent::Empty]);
        assert(c4.drop_first() =~= seq![]);
        assert(run_spec(Phase::Waiting, h, cs).2 =~= seq![
            Effect::Trace(Action::Resume),
            Effect::Apply,
            Effect::TryReceive,
            Effect::Render,
            Effect::Apply,
            Effect::TryReceive,
            Effect::Receive,
        ]);
    }
}

/// Quit: with the quit flag set and no suspend asked for, the loop stops
/// both tasks, awaits the render task and then the input task, and finishes;
/// after that no event is acted on and no command applied.
pub proof fn lemma_quit_finishes(p: Phase, h: Home, rest: Seq<LoopEvent>)
    requires
        p is Waiting || p is Draining,
        h.should_quit,
        !h.should_suspend,
    ensures
        run_spec(p, h, seq![LoopEvent::Empty, LoopEvent::RenderStopped, LoopEvent::InputStopped])
            == (
            Phase::Finished,
            h,
            seq![
                Effect::StopRender,
                Effect::StopInput,
                Effect::AwaitRender,
                Effect::AwaitInput,
                Effect::Finish,
            ],
        ),
        run_spec(Phase::Finished, h, rest) == (Phase::Finished, h, Seq::<Effect>::empty()),
{
    lemma_finished_stays(h, rest);
    reveal_with_fuel(run_spec, 4);
    let evs = seq![LoopEvent::Empty, LoopEvent::RenderStopped, LoopEvent::InputStopped];
    assert(evs.drop_first() =~= seq![LoopEvent::RenderStopped, LoopEvent::InputStopped]);
    assert(evs.drop_first().drop_first() =~= seq![LoopEvent::InputStopped]);
    assert(evs.drop_first().drop_first().drop_first() =~= seq![]);
    assert(run_spec(p, h, evs).2 =~= seq![
        Effect::StopRender,
        Effect::StopInput,
        Effect::AwaitRender,
        Effect::AwaitInput,
        Effect::Finish,
    ]);
}

/// Once finished, the loop acts on no event and applies no command.
proof fn lemma_finished_stays(h: Home, rest: Seq<LoopEvent>)
    ensures
        run_spec(Phase::Finished, h, rest) == (Phase::Finished, h, Seq::<Effect>::empty()),
    decreases rest.len(),
{
    if rest.len() > 0 {
        lemma_finished_stays(h, rest.drop_first());
        let e1 = step_spec(Phase::Finished, h, rest[0]).2;
        assert(e1 =~= Seq::<Effect>::empty());
        assert(e1 + Seq::<Effect>::empty() =~= Seq::<Effect>::empty());
    }
}

/// The dispatch loop's decisions: it drains the command queue, applies each
/// command to the shared state, and runs the suspend and quit lifecycles of
/// the render and input tasks.
pub struct Dispatcher {
    pub phase: Phase,
}

impl Dispatcher {
    /// A loop that waits for its first command.
    pub fn new() -> (r: Dispatcher)
        ensures
            r.phase == Phase::Waiting,
    {
        Dispatcher { phase: Phase::Waiting }
    }

    /// Whether the loop is over.
    pub fn is_finished(&self) -> (r: bool)
        ensures
            r == (self.phase == Phase::Finished),
    {
        self.phase == Phase::Finished
    }

    /// Takes one event, applies any command it carries to `home`, and
    /// returns the effects for the runtime to perform, in order.
    pub fn step(&mut self, home: &mut Home, ev: LoopEvent) -> (r: Vec<Effect>)
        ensures
            (final(self).phase, *final(home), r@) == step_spec(old(self).phase, *old(home), ev),
    {
        let mut effects: Vec<Effect> = Vec::new();
        match ev {
            LoopEvent::Command(a) => {
                if self.phase == Phase::Waiting || self.phase == Phase::Draining {
                    if a == Action::RenderTick {
                        effects.push(Effect::Render);
                    } else if a != Action::Tick {
                        effects.push(Effect::Trace(a));
                    }
                    effects.push(Effect::Apply);
                    self.phase = Phase::Applying(a);
                }
            },
            LoopEvent::Noticed => {
                if let Phase::Applying(a) = self.phase {
                    if let Some(b) = home.dispatch(a) {
                        effects.push(Effect::Enqueue(b));
                    }
                    effects.push(Effect::TryReceive);
                    self.phase = Phase::Draining;
                }
            },
            LoopEvent::Empty => {
                if self.phase == Phase::Waiting || self.phase == Phase::Draining {
                    if home.should_suspend {
                        self.start_teardown(Teardown::Suspend, &mut effects);
                    } else if home.should_quit {
                        self.start_teardown(Teardown::Quit, &mut effects);
                    } else {
                        effects.push(Effect::Receive);
                        self.phase = Phase::Waiting;
                    }
                }
            },
            LoopEvent::RenderStopped => {
                if let Phase::AwaitRender(t) = self.phase {
                    effects.push(Effect::AwaitInput);
                    self.phase = Phase::AwaitInput(t);
                }
            },
            LoopEvent::InputStopped => {
                match self.phase {
                    Phase::AwaitInput(Teardown::Suspend) => {
                        effects.push(Effect::SuspendProcess);
                        self.phase = Phase::Suspended;
                    },
                    Phase::AwaitInput(Teardown::Quit) => {
                        effects.push(Effect::Finish);
                        self.phase = Phase::Finished;
                    },
                    _ => {},
                }
            },
            LoopEvent::Resumed => {
                if self.phase == Phase::Suspended {
                    effects.push(Effect::Respawn);
                    effects.push(Effect::Enqueue(Action::Resume));
                    effects.push(Effect::Receive);
                    self.phase = Phase::Waiting;
                }
            },
        }
        proof {
            let (_p, _h, e) = step_spec(old(self).phase, *old(home), ev);
            assert(effects@ =~= e);
        }
        effects
    }

    fn start_teardown(&mut self, t: Teardown, effects: &mut Vec<Effect>)
        requires
            old(effects)@.len() == 0,
        ensures
            final(self).phase == Phase::AwaitRender(t),
            final(effects)@ == stop_both(),
    {
        effects.push(Effect::StopRender);
        effects.push(Effect::StopInput);
        effects.push(Effect::AwaitRender);
        self.phase = Phase::AwaitRender(t);
        assert(effects@ =~= stop_both());
    }
}

} // verus!
