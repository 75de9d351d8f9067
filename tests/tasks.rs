use tui_core::{input_after_send, InputEffect, Message, RenderEffect, RenderPhase, RenderTask};

#[test]
fn render_signal_draws() {
    let mut t = RenderTask::new();
    assert_eq!(t.phase, RenderPhase::Running);
    assert_eq!(t.on_signal(Some(Message::Render)), Some(RenderEffect::Draw));
    assert_eq!(t.on_signal(Some(Message::Render)), Some(RenderEffect::Draw));
    assert_eq!(t.phase, RenderPhase::Running);
}

#[test]
fn stop_signal_exits_and_nothing_draws_after() {
    let mut t = RenderTask::new();
    assert_eq!(t.on_signal(Some(Message::Stop)), Some(RenderEffect::Exit));
    assert_eq!(t.phase, RenderPhase::Stopped);
    assert_eq!(t.on_signal(Some(Message::Render)), None);
    assert_eq!(t.on_draw_failed(), None);
    assert_eq!(t.on_signal(None), None);
}

#[test]
fn closed_channel_exits() {
    let mut t = RenderTask::new();
    assert_eq!(t.on_signal(None), Some(RenderEffect::Exit));
    assert_eq!(t.phase, RenderPhase::Stopped);
}

#[test]
fn failed_draw_exits() {
    let mut t = RenderTask::new();
    assert_eq!(t.on_signal(Some(Message::Render)), Some(RenderEffect::Draw));
    assert_eq!(t.on_draw_failed(), Some(RenderEffect::Exit));
    assert_eq!(t.on_signal(Some(Message::Render)), None);
}

#[test]
fn fresh_task_after_resume_draws() {
    let mut old = RenderTask::new();
    old.on_signal(Some(Message::Stop));
    let mut fresh = RenderTask::new();
    assert_eq!(fresh.on_signal(Some(Message::Render)), Some(RenderEffect::Draw));
}

#[test]
fn input_task_stops_only_when_asked() {
    assert_eq!(input_after_send(false), InputEffect::NextEvent);
    assert_eq!(input_after_send(true), InputEffect::StopSourceAndExit);
}
