use tui_core::{Action, Event, Home, Key, KeyCode, Mode};

fn key(c: char) -> Event {
    Event::Key(Key { code: KeyCode::Char(c), ctrl: false })
}

fn ctrl(c: char) -> Event {
    Event::Key(Key { code: KeyCode::Char(c), ctrl: true })
}

#[test]
fn every_follow_up_chain_ends() {
    let all = [
        Action::Quit,
        Action::Resume,
        Action::Suspend,
        Action::Tick,
        Action::RenderTick,
        Action::Resize(80, 24),
        Action::ToggleShowLogger,
        Action::ScheduleIncrementCounter,
        Action::ScheduleDecrementCounter,
        Action::AddToCounter(7),
        Action::SubtractFromCounter(7),
        Action::EnterNormal,
        Action::EnterInsert,
        Action::EnterProcessing,
        Action::ExitProcessing,
        Action::Update,
        Action::Noop,
    ];
    for a in all {
        let mut h = Home::new();
        let mut next = Some(a);
        let mut steps = 0;
        while let Some(c) = next {
            next = h.dispatch(c);
            steps += 1;
            assert!(steps <= 2);
        }
    }
}

#[test]
fn tick_and_render_tick_have_no_follow_up() {
    let mut h = Home::new();
    assert_eq!(h.dispatch(Action::Tick), None);
    assert_eq!(h.dispatch(Action::RenderTick), None);
    assert_eq!(h.app_ticks, 1);
    assert_eq!(h.render_ticks, 1);
}

#[test]
fn handle_event_is_deterministic() {
    let h = Home::new();
    let copy = h;
    for e in [key('q'), key('j'), ctrl('z'), Event::Tick, Event::Resize(10, 20), Event::Other] {
        assert_eq!(h.handle_event(e), copy.handle_event(e));
        assert_eq!(h.handle_event(e), h.handle_event(e));
    }
}

#[test]
fn handle_event_maps_events() {
    let mut h = Home::new();
    assert_eq!(h.handle_event(Event::Quit), Action::Quit);
    assert_eq!(h.handle_event(Event::Tick), Action::Tick);
    assert_eq!(h.handle_event(Event::Render), Action::RenderTick);
    assert_eq!(h.handle_event(Event::Resize(80, 24)), Action::Resize(80, 24));
    assert_eq!(h.handle_event(Event::Other), Action::Noop);
    assert_eq!(h.handle_event(key('q')), Action::Quit);
    assert_eq!(h.handle_event(key('l')), Action::ToggleShowLogger);
    assert_eq!(h.handle_event(key('j')), Action::ScheduleIncrementCounter);
    assert_eq!(h.handle_event(key('k')), Action::ScheduleDecrementCounter);
    assert_eq!(h.handle_event(key('/')), Action::EnterInsert);
    assert_eq!(h.handle_event(key('x')), Action::Noop);
    assert_eq!(h.handle_event(ctrl('z')), Action::Suspend);
    assert_eq!(h.handle_event(ctrl('c')), Action::Quit);
    h.mode = Mode::Insert;
    assert_eq!(h.handle_event(key('q')), Action::Update);
    assert_eq!(h.handle_event(Event::Key(Key { code: KeyCode::Esc, ctrl: false })), Action::EnterNormal);
    h.mode = Mode::Processing;
    assert_eq!(h.handle_event(key('j')), Action::Noop);
    assert_eq!(h.handle_event(ctrl('d')), Action::Quit);
}

#[test]
fn counter_saturates() {
    let mut h = Home::new();
    h.dispatch(Action::SubtractFromCounter(3));
    assert_eq!(h.counter, 0);
    h.dispatch(Action::AddToCounter(usize::MAX));
    h.dispatch(Action::AddToCounter(1));
    assert_eq!(h.counter, usize::MAX);
    h.dispatch(Action::SubtractFromCounter(5));
    assert_eq!(h.counter, usize::MAX - 5);
}

#[test]
fn flags_and_modes() {
    let mut h = Home::new();
    h.dispatch(Action::Suspend);
    assert!(h.should_suspend);
    h.dispatch(Action::Resume);
    assert!(!h.should_suspend);
    h.dispatch(Action::Quit);
    assert!(h.should_quit);
    h.dispatch(Action::ToggleShowLogger);
    assert!(h.show_logger);
    h.dispatch(Action::EnterProcessing);
    assert_eq!(h.mode, Mode::Processing);
    h.dispatch(Action::ExitProcessing);
    assert_eq!(h.mode, Mode::Normal);
    h.dispatch(Action::EnterInsert);
    assert_eq!(h.mode, Mode::Insert);
    assert_eq!(h.dispatch(Action::ScheduleDecrementCounter), Some(Action::SubtractFromCounter(1)));
}
