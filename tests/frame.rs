use pentagon_viewer::frame::{FrameCommand, FrameEvent, Phase, State, SurfaceError, WindowCommand};
use pentagon_viewer::input::{Direction, Key, WindowEvent};
use pentagon_viewer::surface::{PhysicalSize, PresentMode, SurfaceConfig};

fn acquiring(size: PhysicalSize) -> State {
    let mut s = State::new(size);
    assert_eq!(s.step(FrameEvent::RedrawRequested), FrameCommand::UpdateCamera);
    assert_eq!(s.step(FrameEvent::Completed), FrameCommand::AcquireFrame);
    assert_eq!(s.phase, Phase::Acquiring);
    s
}

#[test]
fn full_frame_cycle() {
    let mut s = acquiring(PhysicalSize::new(800, 600));
    assert_eq!(s.step(FrameEvent::Acquired), FrameCommand::RecordPass);
    assert_eq!(s.phase, Phase::Recording);
    assert_eq!(s.step(FrameEvent::Completed), FrameCommand::Submit);
    assert_eq!(s.phase, Phase::Submitting);
    assert_eq!(s.step(FrameEvent::Completed), FrameCommand::Present);
    assert_eq!(s.phase, Phase::Presented);
    assert_eq!(s.step(FrameEvent::Completed), FrameCommand::Nothing);
    assert_eq!(s.phase, Phase::Idle);
}

#[test]
fn lost_surface_reconfigures_once_at_current_size() {
    let mut s = acquiring(PhysicalSize::new(800, 600));
    let before = s.surface;
    let cmd = s.step(FrameEvent::AcquireFailed(SurfaceError::Lost));
    assert_eq!(
        cmd,
        FrameCommand::Reconfigure(SurfaceConfig {
            width: 800,
            height: 600,
            present_mode: PresentMode::Fifo
        })
    );
    assert_ne!(cmd, FrameCommand::Exit);
    assert_eq!(s.surface, before);
    assert_eq!(s.phase, Phase::Idle);
}

#[test]
fn lost_surface_after_resize_uses_new_size() {
    let mut s = State::new(PhysicalSize::new(800, 600));
    s.resize(PhysicalSize::new(1280, 720));
    let mut s2 = s;
    s2.step(FrameEvent::RedrawRequested);
    s2.step(FrameEvent::Completed);
    match s2.step(FrameEvent::AcquireFailed(SurfaceError::Lost)) {
        FrameCommand::Reconfigure(c) => {
            assert_eq!((c.width, c.height), (1280, 720));
        }
        other => panic!("unexpected command {:?}", other),
    }
}

#[test]
fn lost_surface_with_zero_size_does_nothing() {
    let mut s = acquiring(PhysicalSize::new(0, 0));
    assert_eq!(s.step(FrameEvent::AcquireFailed(SurfaceError::Lost)), FrameCommand::Nothing);
    assert_eq!(s.phase, Phase::Idle);
}

#[test]
fn out_of_memory_is_fatal() {
    let mut s = acquiring(PhysicalSize::new(800, 600));
    assert_eq!(s.step(FrameEvent::AcquireFailed(SurfaceError::OutOfMemory)), FrameCommand::Exit);
}

#[test]
fn other_surface_errors_are_reported_and_skipped() {
    let mut s = acquiring(PhysicalSize::new(800, 600));
    assert_eq!(
        s.step(FrameEvent::AcquireFailed(SurfaceError::Timeout)),
        FrameCommand::Report(SurfaceError::Timeout)
    );
    assert_eq!(s.phase, Phase::Idle);
    let mut s = acquiring(PhysicalSize::new(800, 600));
    assert_eq!(
        s.step(FrameEvent::AcquireFailed(SurfaceError::Outdated)),
        FrameCommand::Report(SurfaceError::Outdated)
    );
}

#[test]
fn unexpected_event_is_ignored() {
    let mut s = State::new(PhysicalSize::new(800, 600));
    assert_eq!(s.step(FrameEvent::Completed), FrameCommand::Nothing);
    assert_eq!(s.step(FrameEvent::Acquired), FrameCommand::Nothing);
    assert_eq!(s.phase, Phase::Idle);
    s.step(FrameEvent::RedrawRequested);
    assert_eq!(s.step(FrameEvent::RedrawRequested), FrameCommand::Nothing);
    assert_eq!(s.phase, Phase::Updating);
}

#[test]
fn resize_event_configures_surface() {
    let mut s = State::new(PhysicalSize::new(800, 600));
    let cmd = s.handle_window_event(&WindowEvent::Resized(PhysicalSize::new(400, 450)));
    assert_eq!(
        cmd,
        WindowCommand::Configure(SurfaceConfig {
            width: 400,
            height: 450,
            present_mode: PresentMode::Fifo
        })
    );
    assert_eq!(s.surface.size, PhysicalSize::new(400, 450));
    let cmd = s.handle_window_event(&WindowEvent::ScaleFactorChanged(PhysicalSize::new(
        900, 800,
    )));
    assert!(matches!(cmd, WindowCommand::Configure(c) if c.width == 900 && c.height == 800));
}

#[test]
fn minimized_window_changes_nothing() {
    let mut s = State::new(PhysicalSize::new(800, 600));
    let before = s;
    let cmd = s.handle_window_event(&WindowEvent::Resized(PhysicalSize::new(0, 0)));
    assert_eq!(cmd, WindowCommand::Nothing);
    assert_eq!(s, before);
}

#[test]
fn close_and_escape_exit() {
    let mut s = State::new(PhysicalSize::new(800, 600));
    assert_eq!(s.handle_window_event(&WindowEvent::CloseRequested), WindowCommand::Exit);
    assert_eq!(
        s.handle_window_event(&WindowEvent::KeyboardInput { key: Key::Escape, pressed: true }),
        WindowCommand::Exit
    );
    assert_eq!(
        s.handle_window_event(&WindowEvent::KeyboardInput { key: Key::Escape, pressed: false }),
        WindowCommand::Nothing
    );
}

#[test]
fn movement_keys_are_consumed_by_input() {
    let mut s = State::new(PhysicalSize::new(800, 600));
    assert!(s.input(&WindowEvent::KeyboardInput { key: Key::S, pressed: true }));
    assert!(s.controller.is_held(Direction::Backward));
    assert!(s.input(&WindowEvent::CursorMoved));
    assert!(!s.input(&WindowEvent::KeyboardInput { key: Key::Other, pressed: true }));
    assert!(!s.input(&WindowEvent::CloseRequested));
    assert_eq!(
        s.handle_window_event(&WindowEvent::KeyboardInput { key: Key::A, pressed: true }),
        WindowCommand::Nothing
    );
    assert!(s.controller.is_held(Direction::StrafeLeft));
}
