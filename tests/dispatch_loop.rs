use tui_core::{Action, Dispatcher, Effect, Home, LoopEvent, Phase, Teardown};

fn feed(d: &mut Dispatcher, h: &mut Home, evs: &[LoopEvent]) -> Vec<Effect> {
    let mut out = Vec::new();
    for ev in evs {
        out.extend(d.step(h, *ev));
    }
    out
}

/// Takes each command and reports its notice as performed.
fn take_all(d: &mut Dispatcher, h: &mut Home, acts: &[Action]) -> Vec<Effect> {
    let mut out = Vec::new();
    for a in acts {
        out.extend(d.step(h, LoopEvent::Command(*a)));
        out.extend(d.step(h, LoopEvent::Noticed));
    }
    out
}

#[test]
fn suspend_wins_over_quit() {
    let mut h = Home::new();
    h.should_quit = true;
    h.should_suspend = true;
    let mut d = Dispatcher::new();
    d.phase = Phase::Draining;
    d.step(&mut h, LoopEvent::Empty);
    assert_eq!(d.phase, Phase::AwaitRender(Teardown::Suspend));
    d.step(&mut h, LoopEvent::RenderStopped);
    assert_eq!(d.phase, Phase::AwaitInput(Teardown::Suspend));
    let e = d.step(&mut h, LoopEvent::InputStopped);
    assert_eq!(e, vec![Effect::SuspendProcess]);
    let e = d.step(&mut h, LoopEvent::Resumed);
    assert_eq!(e, vec![Effect::Respawn, Effect::Enqueue(Action::Resume), Effect::Receive]);
    assert_eq!(d.phase, Phase::Waiting);
}

#[test]
fn suspend_resume_round_trip() {
    let mut h = Home::new();
    let mut d = Dispatcher::new();
    let mut effects = take_all(&mut d, &mut h, &[Action::Suspend]);
    effects.extend(feed(
        &mut d,
        &mut h,
        &[
            LoopEvent::Empty,
            LoopEvent::RenderStopped,
            LoopEvent::InputStopped,
            LoopEvent::Resumed,
        ],
    ));
    let resumes = effects.iter().filter(|e| **e == Effect::Enqueue(Action::Resume)).count();
    assert_eq!(resumes, 1);
    assert!(h.should_suspend);
    let mut effects = take_all(&mut d, &mut h, &[Action::Resume, Action::RenderTick]);
    effects.extend(d.step(&mut h, LoopEvent::Empty));
    assert!(!h.should_suspend);
    assert_eq!(
        effects,
        vec![
            Effect::Trace(Action::Resume),
            Effect::Apply,
            Effect::TryReceive,
            Effect::Render,
            Effect::Apply,
            Effect::TryReceive,
            Effect::Receive,
        ]
    );
}

#[test]
fn no_render_while_tearing_down() {
    let mut h = Home::new();
    h.should_suspend = true;
    let mut d = Dispatcher::new();
    let e = d.step(&mut h, LoopEvent::Empty);
    assert_eq!(e, vec![Effect::StopRender, Effect::StopInput, Effect::AwaitRender]);
    let stray = d.step(&mut h, LoopEvent::Command(Action::RenderTick));
    assert!(stray.is_empty());
    let early = d.step(&mut h, LoopEvent::InputStopped);
    assert!(early.is_empty());
    assert_eq!(d.phase, Phase::AwaitRender(Teardown::Suspend));
}

#[test]
fn empty_queue_without_flags_blocks_again() {
    let mut h = Home::new();
    let mut d = Dispatcher::new();
    let e = take_all(&mut d, &mut h, &[Action::Noop]);
    assert_eq!(e, vec![Effect::Trace(Action::Noop), Effect::Apply, Effect::TryReceive]);
    let e = d.step(&mut h, LoopEvent::Empty);
    assert_eq!(e, vec![Effect::Receive]);
    assert_eq!(d.phase, Phase::Waiting);
}

#[test]
fn follow_up_is_queued() {
    let mut h = Home::new();
    let mut d = Dispatcher::new();
    let e = take_all(&mut d, &mut h, &[Action::ScheduleIncrementCounter]);
    assert_eq!(
        e,
        vec![
            Effect::Trace(Action::ScheduleIncrementCounter),
            Effect::Apply,
            Effect::Enqueue(Action::AddToCounter(1)),
            Effect::TryReceive,
        ]
    );
    assert_eq!(h.counter, 0);
    let e = take_all(&mut d, &mut h, &[Action::AddToCounter(1)]);
    assert!(!e.iter().any(|x| matches!(x, Effect::Enqueue(_))));
    assert_eq!(h.counter, 1);
}

#[test]
fn tick_render_tick_add_to_counter() {
    let mut h = Home::new();
    let mut d = Dispatcher::new();
    let effects = take_all(&mut d, &mut h, &[Action::Tick, Action::RenderTick, Action::AddToCounter(5)]);
    assert_eq!(h.counter, 5);
    assert_eq!(effects.iter().filter(|e| **e == Effect::Render).count(), 1);
    assert!(!effects.iter().any(|e| matches!(e, Effect::Enqueue(_))));
    assert!(!effects.iter().any(|e| matches!(e, Effect::StopRender)));
    assert_eq!(
        effects,
        vec![
            Effect::Apply,
            Effect::TryReceive,
            Effect::Render,
            Effect::Apply,
            Effect::TryReceive,
            Effect::Trace(Action::AddToCounter(5)),
            Effect::Apply,
            Effect::TryReceive,
        ]
    );
}

#[test]
fn render_signal_goes_out_before_dispatch() {
    let mut h = Home::new();
    let mut d = Dispatcher::new();
    let e = d.step(&mut h, LoopEvent::Command(Action::RenderTick));
    assert_eq!(e, vec![Effect::Render, Effect::Apply]);
    assert_eq!(h, Home::new());
    assert_eq!(d.phase, Phase::Applying(Action::RenderTick));
    let e = d.step(&mut h, LoopEvent::Noticed);
    assert_eq!(e, vec![Effect::TryReceive]);
    assert_eq!(h.render_ticks, 1);
    assert_eq!(d.phase, Phase::Draining);
}

#[test]
fn quit_stops_both_tasks_and_finishes() {
    let mut h = Home::new();
    let mut d = Dispatcher::new();
    let mut effects = take_all(&mut d, &mut h, &[Action::Quit]);
    effects.extend(feed(
        &mut d,
        &mut h,
        &[LoopEvent::Empty, LoopEvent::RenderStopped, LoopEvent::InputStopped],
    ));
    assert_eq!(
        effects,
        vec![
            Effect::Trace(Action::Quit),
            Effect::Apply,
            Effect::TryReceive,
            Effect::StopRender,
            Effect::StopInput,
            Effect::AwaitRender,
            Effect::AwaitInput,
            Effect::Finish,
        ]
    );
    assert!(d.is_finished());
    let before = h;
    let later = feed(
        &mut d,
        &mut h,
        &[
            LoopEvent::Command(Action::AddToCounter(3)),
            LoopEvent::Noticed,
            LoopEvent::Empty,
            LoopEvent::Resumed,
        ],
    );
    assert!(later.is_empty());
    assert_eq!(h, before);
    assert_eq!(d.phase, Phase::Finished);
}

#[test]
fn queued_commands_all_applied_before_flags_checked() {
    let mut h = Home::new();
    let mut d = Dispatcher::new();
    let effects = take_all(
        &mut d,
        &mut h,
        &[Action::Suspend, Action::AddToCounter(2), Action::AddToCounter(3)],
    );
    assert_eq!(h.counter, 5);
    assert_eq!(d.phase, Phase::Draining);
    assert_eq!(effects.last(), Some(&Effect::TryReceive));
    assert!(!effects.iter().any(|e| matches!(e, Effect::Receive | Effect::StopRender)));
    let next = d.step(&mut h, LoopEvent::Empty);
    assert_eq!(next, vec![Effect::StopRender, Effect::StopInput, Effect::AwaitRender]);
}
