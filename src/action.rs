use vstd::prelude::*;

verus! {

/// A request for a state transition or a lifecycle change.
#[derive(Debug, Clone, Copy, PartialEq, Eq, Structural)]
pub enum Action {
    Quit,
    Resume,
    Suspend,
    Tick,
    RenderTick,
    Resize(u16, u16),
    ToggleShowLogger,
    ScheduleIncrementCounter,
    ScheduleDecrementCounter,
    AddToCounter(usize),
    SubtractFromCounter(usize),
    EnterNormal,
    EnterInsert,
    EnterProcessing,
    ExitProcessing,
    Update,
    Noop,
}

/// A lifecycle message for the render task.
#[derive(Debug, Clone, Copy, PartialEq, Eq, Structural)]
pub enum Message {
    Render,
    Stop,
}

} // verus!
