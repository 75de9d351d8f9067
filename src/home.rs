use vstd::prelude::*;

use crate::action::Action;

verus! {

/// The input mode of the application.
#[derive(Debug, Clone, Copy, PartialEq, Eq, Structural)]
pub enum Mode {
    Normal,
    Insert,
    Processing,
}

/// The key of a key press.
#[derive(Debug, Clone, Copy, PartialEq, Eq, Structural)]
pub enum KeyCode {
    Char(char),
    Esc,
    Enter,
    Other,
}

/// A key press, with whether the control modifier was held.
#[derive(Debug, Clone, Copy, PartialEq, Eq, Structural)]
pub struct Key {
    pub code: KeyCode,
    pub ctrl: bool,
}

/// An event from the input / tick source.
#[derive(Debug, Clone, Copy, PartialEq, Eq, Structural)]
pub enum Event {
    Quit,
    Tick,
    Render,
    Resize(u16, u16),
    Key(Key),
    Other,
}

/// The shared application state: lifecycle flags, counters and the input mode.
#[derive(Debug, Clone, Copy, PartialEq, Eq, Structural)]
pub struct Home {
    pub should_quit: bool,
    pub should_suspend: bool,
    pub show_logger: bool,
    pub mode: Mode,
    pub counter: usize,
    pub app_ticks: usize,
    pub render_ticks: usize,
}

/// `a + b`, held at `usize::MAX`.
pub open spec fn sat_add(a: usize, b: usize) -> usize {
    if a + b > usize::MAX { usize::MAX } else { (a + b) as usize }
}

/// `a - b`, held at zero.
pub open spec fn sat_sub(a: usize, b: usize) -> usize {
    if a < b { 0 } else { (a - b) as usize }
}

/// The action a key press asks for in a given mode.
pub open spec fn key_action(mode: Mode, key: Key) -> Action {
    if key.ctrl && (key.code == KeyCode::Char('c') || key.code == KeyCode::Char('d')) {
        Action::Quit
    } else if key.ctrl && key.code == KeyCode::Char('z') {
        Action::Suspend
    } else {
        match mode {
            Mode::Normal => if key.ctrl {
                Action::Noop
            } else {
                match key.code {
                    KeyCode::Char('q') => Action::Quit,
                    KeyCode::Char('l') => Action::ToggleShowLogger,
                    KeyCode::Char('j') => Action::ScheduleIncrementCounter,
                    KeyCode::Char('k') => Action::ScheduleDecrementCounter,
                    KeyCode::Char('/') => Action::EnterInsert,
                    _ => Action::Noop,
                }
            },
            Mode::Insert => match key.code {
                KeyCode::Esc => Action::EnterNormal,
                KeyCode::Enter => Action::EnterNormal,
                _ => Action::Update,
            },
            Mode::Processing => Action::Noop,
        }
    }
}

/// The action an event asks for in a given state.
pub open spec fn handle_event_spec(h: Home, e: Event) -> Action {
    match e {
        Event::Quit => Action::Quit,
        Event::Tick => Action::Tick,
        Event::Render => Action::RenderTick,
        Event::Resize(w, ht) => Action::Resize(w, ht),
        Event::Key(k) => key_action(h.mode, k),
        Event::Other => Action::Noop,
    }
}

/// The state after applying an action, with the follow-up action it asks for.
pub open spec fn dispatch_spec(h: Home, a: Action) -> (Home, Option<Action>) {
    match a {
        Action::Quit => (Home { should_quit: true, ..h }, None),
        Action::Suspend => (Home { should_suspend: true, ..h }, None),
        Action::Resume => (Home { should_suspend: false, ..h }, None),
        Action::Tick => (Home { app_ticks: sat_add(h.app_ticks, 1), ..h }, None),
        Action::RenderTick => (Home { render_ticks: sat_add(h.render_ticks, 1), ..h }, None),
        Action::ToggleShowLogger => (Home { show_logger: !h.show_logger, ..h }, None),
        Action::ScheduleIncrementCounter => (h, Some(Action::AddToCounter(1))),
        Action::ScheduleDecrementCounter => (h, Some(Action::SubtractFromCounter(1))),
        Action::AddToCounter(n) => (Home { counter: sat_add(h.counter, n), ..h }, None),
        Action::SubtractFromCounter(n) => (Home { counter: sat_sub(h.counter, n), ..h }, None),
        Action::EnterNormal => (Home { mode: Mode::Normal, ..h }, None),
        Action::EnterInsert => (Home { mode: Mode::Insert, ..h }, None),
        Action::EnterProcessing => (Home { mode: Mode::Processing, ..h }, None),
        Action::ExitProcessing => (Home { mode: Mode::Normal, ..h }, None),
        _ => (h, None),
    }
}

/// The state after applying each action of `acts` in turn. Follow-ups are not
/// applied: they go back through the command queue.
pub open spec fn dispatch_all(h: Home, acts: Seq<Action>) -> Home
    decreases acts.len(),
{
    if acts.len() == 0 {
        h
    } else {
        dispatch_all(dispatch_spec(h, acts[0]).0, acts.drop_first())
    }
}

/// The number of actions that applying `a` to `h` sets off: `a` itself, then
/// each follow-up in turn, for at most `fuel` steps.
pub open spec fn chain_len(h: Home, a: Action, fuel: nat) -> nat
    decreases fuel,
{
    if fuel == 0 {
        0
    } else {
        match dispatch_spec(h, a).1 {
            None => 1,
            Some(f) => 1 + chain_len(dispatch_spec(h, a).0, f, (fuel - 1) as nat),
        }
    }
}

impl Home {
    /// A fresh state: no flags set, counters at zero, in normal mode.
    pub fn new() -> (r: Home)
        ensures
            r == (Home {
                should_quit: false,
                should_suspend: false,
                show_logger: false,
                mode: Mode::Normal,
                counter: 0,
                app_ticks: 0,
                render_ticks: 0,
            }),
    {
        Home {
            should_quit: false,
            should_suspend: false,
            show_logger: false,
            mode: Mode::Normal,
            counter: 0,
            app_ticks: 0,
            render_ticks: 0,
        }
    }

    /// The action that `e` asks for in the current state; `Noop` when none
    /// applies. The state is only read.
    pub fn handle_event(&self, e: Event) -> (r: Action)
        ensures
            r == handle_event_spec(*self, e),
    {
        match e {
            Event::Quit => Action::Quit,
            Event::Tick => Action::Tick,
            Event::Render => Action::RenderTick,
            Event::Resize(w, ht) => Action::Resize(w, ht),
            Event::Key(k) => self.handle_key(k),
            Event::Other => Action::Noop,
        }
    }

    fn handle_key(&self, key: Key) -> (r: Action)
        ensures
            r == key_action(self.mode, key),
    {
        if key.ctrl && (key.code == KeyCode::Char('c') || key.code == KeyCode::Char('d')) {
            return Action::Quit;
        }
        if key.ctrl && key.code == KeyCode::Char('z') {
            return Action::Suspend;
        }
        match self.mode {
            Mode::Normal => {
                if key.ctrl {
                    Action::Noop
                } else {
                    match key.code {
                        KeyCode::Char('q') => Action::Quit,
                        KeyCode::Char('l') => Action::ToggleShowLogger,
                        KeyCode::Char('j') => Action::ScheduleIncrementCounter,
                        KeyCode::Char('k') => Action::ScheduleDecrementCounter,
                        KeyCode::Char('/') => Action::EnterInsert,
                        _ => Action::Noop,
                    }
                }
            },
            Mode::Insert => match key.code {
                KeyCode::Esc => Action::EnterNormal,
                KeyCode::Enter => Action::EnterNormal,
                _ => Action::Update,
            },
            Mode::Processing => Action::Noop,
        }
    }

    /// Applies `a` to the state and returns the follow-up action to queue,
    /// if any.
    pub fn dispatch(&mut self, a: Action) -> (r: Option<Action>)
        ensures
            (*final(self), r) == dispatch_spec(*old(self), a),
    {
        match a {
            Action::Quit => self.should_quit = true,
            Action::Suspend => self.should_suspend = true,
            Action::Resume => self.should_suspend = false,
            Action::Tick => self.app_ticks = self.app_ticks.saturating_add(1),
            Action::RenderTick => self.render_ticks = self.render_ticks.saturating_add(1),
            Action::ToggleShowLogger => self.show_logger = !self.show_logger,
            Action::ScheduleIncrementCounter => return Some(Action::AddToCounter(1)),
            Action::ScheduleDecrementCounter => return Some(Action::SubtractFromCounter(1)),
            Action::AddToCounter(n) => self.counter = self.counter.saturating_add(n),
            Action::SubtractFromCounter(n) => self.counter = self.counter.saturating_sub(n),
            Action::EnterNormal => self.mode = Mode::Normal,
            Action::EnterInsert => self.mode = Mode::Insert,
            Action::EnterProcessing => self.mode = Mode::Processing,
            Action::ExitProcessing => self.mode = Mode::Normal,
            _ => {},
        }
        None
    }
}

/// The follow-up chain of any action ends: a follow-up never asks for a
/// further one, so no action sets off more than two, however much fuel is
/// given.
pub proof fn lemma_follow_up_chain_ends(h: Home, a: Action, fuel: nat)
    ensures
        dispatch_spec(h, a).1 matches Some(f) ==> dispatch_spec(dispatch_spec(h, a).0, f).1 is None,
        chain_len(h, a, fuel) <= 2,
{
    reveal_with_fuel(chain_len, 3);
}

} // verus!
