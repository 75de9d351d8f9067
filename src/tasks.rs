use vstd::prelude::*;

use crate::action::Message;

verus! {

/// Whether the render task still serves signals.
#[derive(Debug, Clone, Copy, PartialEq, Eq, Structural)]
pub enum RenderPhase {
    Running,
    Stopped,
}

/// What the render task does next.
#[derive(Debug, Clone, Copy, PartialEq, Eq, Structural)]
pub enum RenderEffect {
    /// Draw a frame of the current state.
    Draw,
    /// Restore the terminal and end the task.
    Exit,
}

/// What reaches the render task: a signal, the closing of its channel, or
/// the failure of a draw it asked for.
#[derive(Debug, Clone, Copy, PartialEq, Eq, Structural)]
pub enum RenderInput {
    Signal(Message),
    Closed,
    DrawFailed,
}

/// What the input task does after it has sent a command.
#[derive(Debug, Clone, Copy, PartialEq, Eq, Structural)]
pub enum InputEffect {
    /// Wait for the next event.
    NextEvent,
    /// Tell the event source to wind down, then end the task.
    StopSourceAndExit,
}

/// One step of the render task. While running, a render signal draws and
/// anything else exits; once stopped, nothing more is done.
pub open spec fn render_step(p: RenderPhase, i: RenderInput) -> (RenderPhase, Option<RenderEffect>) {
    match p {
        RenderPhase::Stopped => (RenderPhase::Stopped, None),
        RenderPhase::Running => if i == RenderInput::Signal(Message::Render) {
            (RenderPhase::Running, Some(RenderEffect::Draw))
        } else {
            (RenderPhase::Stopped, Some(RenderEffect::Exit))
        },
    }
}

/// The render task's answers to a sequence of inputs, in order.
pub open spec fn render_run(p: RenderPhase, ins: Seq<RenderInput>) -> Seq<Option<RenderEffect>>
    decreases ins.len(),
{
    if ins.len() == 0 {
        seq![]
    } else {
        let (p1, r) = render_step(p, ins[0]);
        seq![r] + render_run(p1, ins.drop_first())
    }
}

/// The input that a value taken from the signal channel stands for; `None`
/// when the channel is closed.
pub open spec fn signal_input(m: Option<Message>) -> RenderInput {
    match m {
        Some(msg) => RenderInput::Signal(msg),
        None => RenderInput::Closed,
    }
}

/// The render task's decisions: it draws on each render signal and exits,
/// restoring the terminal, on a stop signal, a closed channel or a failed
/// draw.
pub struct RenderTask {
    pub phase: RenderPhase,
}

impl RenderTask {
    /// A task that serves signals.
    pub fn new() -> (r: RenderTask)
        ensures
            r.phase == RenderPhase::Running,
    {
        RenderTask { phase: RenderPhase::Running }
    }

    /// Takes what the signal channel gave (`None` when it is closed).
    pub fn on_signal(&mut self, m: Option<Message>) -> (r: Option<RenderEffect>)
        ensures
            (final(self).phase, r) == render_step(old(self).phase, signal_input(m)),
    {
        match self.phase {
            RenderPhase::Stopped => None,
            RenderPhase::Running => match m {
                Some(Message::Render) => Some(RenderEffect::Draw),
                _ => {
                    self.phase = RenderPhase::Stopped;
                    Some(RenderEffect::Exit)
                },
            },
        }
    }

    /// Takes the failure of a draw: the task exits and restores the terminal.
    pub fn on_draw_failed(&mut self) -> (r: Option<RenderEffect>)
        ensures
            (final(self).phase, r) == render_step(old(self).phase, RenderInput::DrawFailed),
    {
        match self.phase {
            RenderPhase::Stopped => None,
            RenderPhase::Running => {
                self.phase = RenderPhase::Stopped;
                Some(RenderEffect::Exit)
            },
        }
    }
}

/// Whether the input task goes on after sending a command: it stops once a
/// stop was requested, and not before.
pub fn input_after_send(stop_requested: bool) -> (r: InputEffect)
    ensures
        r == (if stop_requested {
            InputEffect::StopSourceAndExit
        } else {
            InputEffect::NextEvent
        }),
{
    if stop_requested {
        InputEffect::StopSourceAndExit
    } else {
        InputEffect::NextEvent
    }
}

/// A stopped render task answers nothing, whatever reaches it.
proof fn lemma_stopped_is_silent(ins: Seq<RenderInput>)
    ensures
        forall|k: int| 0 <= k < ins.len() ==> #[trigger] render_run(RenderPhase::Stopped, ins)[k] is None,
        render_run(RenderPhase::Stopped, ins).len() == ins.len(),
    decreases ins.len(),
{
    if ins.len() > 0 {
        lemma_stopped_is_silent(ins.drop_first());
        let rest = render_run(RenderPhase::Stopped, ins.drop_first());
        let all = render_run(RenderPhase::Stopped, ins);
        assert forall|k: int| 0 <= k < ins.len() implies #[trigger] all[k] is None by {
            if k > 0 {
                assert(all[k] == rest[k - 1]);
            }
        }
    }
}

/// No draw after exit: once the render task has exited, whether on a stop
/// signal, a closed channel or a failed draw, it never draws again.
pub proof fn lemma_no_draw_after_exit(p: RenderPhase, ins: Seq<RenderInput>)
    ensures
        render_run(p, ins).len() == ins.len(),
        forall|i: int, j: int|
            0 <= i < j < ins.len() && #[trigger] render_run(p, ins)[i] == Some(RenderEffect::Exit)
                ==> #[trigger] render_run(p, ins)[j] != Some(RenderEffect::Draw),
    decreases ins.len(),
{
    if ins.len() > 0 {
        let (p1, r) = render_step(p, ins[0]);
        let rest = render_run(p1, ins.drop_first());
        let all = render_run(p, ins);
        lemma_no_draw_after_exit(p1, ins.drop_first());
        if r == Some(RenderEffect::Exit) {
            lemma_stopped_is_silent(ins.drop_first());
        }
        assert forall|i: int, j: int|
            0 <= i < j < ins.len() && #[trigger] all[i] == Some(RenderEffect::Exit) implies #[trigger] all[j]
                != Some(RenderEffect::Draw) by {
            assert(all[j] == rest[j - 1]);
            if i > 0 {
                assert(all[i] == rest[i - 1]);
            }
        }
    }
}

} // verus!
