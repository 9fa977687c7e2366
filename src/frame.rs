//! The frame orchestrator: the viewer's state, how window events change it,
//! and the per-frame cycle Idle, Updating, Acquiring, Recording, Submitting,
//! Presented, back to Idle.
//!
//! The caller performs each command that a step returns and reports its
//! outcome as the next event.

use crate::input::{CameraController, Key, WindowEvent};
use crate::surface::{PhysicalSize, SurfaceConfig, SurfaceState};
use vstd::prelude::*;

verus! {

/// Why the surface handed out no frame.
#[derive(Clone, Copy, Debug, PartialEq, Eq, Structural)]
pub enum SurfaceError {
    /// No frame came in time; skip this one.
    Timeout,
    /// The surface no longer matches the window; skip this one.
    Outdated,
    /// The surface was lost; configure it again and skip this frame.
    Lost,
    /// The GPU ran out of memory; fatal.
    OutOfMemory,
}

/// Where a frame stands.
#[derive(Clone, Copy, Debug, PartialEq, Eq, Structural)]
pub enum Phase {
    Idle,
    Updating,
    Acquiring,
    Recording,
    Submitting,
    Presented,
}

/// What the caller reports to the frame cycle.
#[derive(Clone, Copy, Debug, PartialEq, Eq, Structural)]
pub enum FrameEvent {
    /// The window asks for a new frame.
    RedrawRequested,
    /// The last command given was carried out.
    Completed,
    /// The surface handed out a frame.
    Acquired,
    /// The surface handed out no frame.
    AcquireFailed(SurfaceError),
}

/// What the caller must do next for the frame cycle.
#[derive(Clone, Copy, Debug, PartialEq, Eq, Structural)]
pub enum FrameCommand {
    /// Move the camera by the held keys and write its uniform at offset 0.
    UpdateCamera,
    /// Ask the surface for its next frame.
    AcquireFrame,
    /// Record the render pass into a new command encoder.
    RecordPass,
    /// Submit the recorded commands to the queue.
    Submit,
    /// Present the acquired frame.
    Present,
    /// Configure the surface with this configuration; the frame is skipped.
    Reconfigure(SurfaceConfig),
    /// Report the error; the frame is skipped.
    Report(SurfaceError),
    /// Stop the event loop.
    Exit,
    /// Nothing to do.
    Nothing,
}

/// What the caller must do after a window event.
#[derive(Clone, Copy, Debug, PartialEq, Eq, Structural)]
pub enum WindowCommand {
    /// Configure the surface with this configuration and set the camera's
    /// aspect ratio to its width over its height.
    Configure(SurfaceConfig),
    /// Stop the event loop.
    Exit,
    /// Nothing to do.
    Nothing,
}

/// The phase after `e` in phase `p`. An event that the phase does not wait
/// for leaves it as it is.
pub open spec fn next_phase(p: Phase, e: FrameEvent) -> Phase {
    match (p, e) {
        (Phase::Idle, FrameEvent::RedrawRequested) => Phase::Updating,
        (Phase::Updating, FrameEvent::Completed) => Phase::Acquiring,
        (Phase::Acquiring, FrameEvent::Acquired) => Phase::Recording,
        (Phase::Acquiring, FrameEvent::AcquireFailed(_)) => Phase::Idle,
        (Phase::Recording, FrameEvent::Completed) => Phase::Submitting,
        (Phase::Submitting, FrameEvent::Completed) => Phase::Presented,
        (Phase::Presented, FrameEvent::Completed) => Phase::Idle,
        _ => p,
    }
}

/// The viewer's state.
#[derive(Clone, Copy, Debug, PartialEq, Eq, Structural)]
pub struct State {
    pub surface: SurfaceState,
    pub controller: CameraController,
    pub phase: Phase,
}

impl State {
    pub open spec fn wf(self) -> bool {
        self.surface.wf()
    }

    /// The command a failed acquisition calls for: a lost surface is
    /// configured again at the stored size (not at all where that size has no
    /// area); running out of memory is fatal; anything else is reported.
    pub open spec fn recovery(self, err: SurfaceError) -> FrameCommand {
        match err {
            SurfaceError::Lost => if self.surface.size.is_zero_area() {
                FrameCommand::Nothing
            } else {
                FrameCommand::Reconfigure(self.surface.config)
            },
            SurfaceError::OutOfMemory => FrameCommand::Exit,
            _ => FrameCommand::Report(err),
        }
    }

    /// The command that event `e` calls for.
    pub open spec fn command(self, e: FrameEvent) -> FrameCommand {
        match (self.phase, e) {
            (Phase::Idle, FrameEvent::RedrawRequested) => FrameCommand::UpdateCamera,
            (Phase::Updating, FrameEvent::Completed) => FrameCommand::AcquireFrame,
            (Phase::Acquiring, FrameEvent::Acquired) => FrameCommand::RecordPass,
            (Phase::Acquiring, FrameEvent::AcquireFailed(err)) => self.recovery(err),
            (Phase::Recording, FrameEvent::Completed) => FrameCommand::Submit,
            (Phase::Submitting, FrameEvent::Completed) => FrameCommand::Present,
            _ => FrameCommand::Nothing,
        }
    }

    /// The state after event `e`: only the phase moves.
    pub open spec fn next(self, e: FrameEvent) -> State {
        State { phase: next_phase(self.phase, e), ..self }
    }

    /// The state of a viewer whose surface was first configured for a window
    /// of `size`, with no key held and no frame under way.
    pub fn new(size: PhysicalSize) -> (r: State)
        ensures
            r.wf(),
            r.surface.size == size,
            r.surface.config == SurfaceConfig::for_size(size),
            forall|d: crate::input::Direction| !#[trigger] r.controller.held(d),
            r.phase == Phase::Idle,
    {
        State { surface: SurfaceState::new(size), controller: CameraController::new(), phase: Phase::Idle }
    }

    /// Takes a new window size; returns the configuration to apply, or `None`
    /// where the size has no area and nothing changed.
    pub fn resize(&mut self, new_size: PhysicalSize) -> (r: Option<SurfaceConfig>)
        requires
            old(self).wf(),
        ensures
            final(self).wf(),
            final(self).surface == old(self).surface.reconfigured(new_size),
            final(self).controller == old(self).controller,
            final(self).phase == old(self).phase,
            r == if new_size.is_zero_area() {
                None
            } else {
                Some(final(self).surface.config)
            },
    {
        self.surface.reconfigure(new_size)
    }

    /// Offers a window event to the camera input. Returns whether it was
    /// consumed: a pointer move always is, a key only where it moves the
    /// camera (its press state is then recorded).
    pub fn input(&mut self, event: &WindowEvent) -> (r: bool)
        ensures
            final(self).surface == old(self).surface,
            final(self).phase == old(self).phase,
            match *event {
                WindowEvent::CursorMoved => r && final(self).controller == old(self).controller,
                WindowEvent::KeyboardInput { key, pressed } => r == (crate::input::direction_of(key) is Some)
                    && match crate::input::direction_of(key) {
                    Some(d) => final(self).controller == old(self).controller.with_held(d, pressed),
                    None => final(self).controller == old(self).controller,
                },
                _ => !r && final(self).controller == old(self).controller,
            },
    {
        match *event {
            WindowEvent::CursorMoved => true,
            WindowEvent::KeyboardInput { key, pressed } => self.controller.process_key(key, pressed),
            _ => false,
        }
    }

    /// Handles a window event: the camera input first; then a close request
    /// or a pressed Escape ends the loop, and a resize or a scale change
    /// reconfigures the surface.
    pub fn handle_window_event(&mut self, event: &WindowEvent) -> (r: WindowCommand)
        requires
            old(self).wf(),
        ensures
            final(self).wf(),
            final(self).phase == old(self).phase,
            match *event {
                WindowEvent::Resized(size) | WindowEvent::ScaleFactorChanged(size) => {
                    &&& final(self).surface == old(self).surface.reconfigured(size)
                    &&& final(self).controller == old(self).controller
                    &&& r == if size.is_zero_area() {
                        WindowCommand::Nothing
                    } else {
                        WindowCommand::Configure(final(self).surface.config)
                    }
                },
                WindowEvent::CloseRequested => r == WindowCommand::Exit && *final(self) == *old(self),
                WindowEvent::KeyboardInput { key, pressed } => final(self).surface == old(self).surface
                    && match crate::input::direction_of(key) {
                    Some(d) => final(self).controller == old(self).controller.with_held(d, pressed)
                        && r == WindowCommand::Nothing,
                    None => final(self).controller == old(self).controller
                        && r == if key == Key::Escape && pressed {
                        WindowCommand::Exit
                    } else {
                        WindowCommand::Nothing
                    },
                },
                _ => r == WindowCommand::Nothing && *final(self) == *old(self),
            },
    {
        if self.input(event) {
            return WindowCommand::Nothing;
        }
        match *event {
            WindowEvent::CloseRequested => WindowCommand::Exit,
            WindowEvent::KeyboardInput { key: Key::Escape, pressed: true } => WindowCommand::Exit,
            WindowEvent::Resized(size) | WindowEvent::ScaleFactorChanged(size) => {
                match self.resize(size) {
                    Some(config) => WindowCommand::Configure(config),
                    None => WindowCommand::Nothing,
                }
            },
            _ => WindowCommand::Nothing,
        }
    }

    /// Advances the frame cycle by event `e` and returns what the caller
    /// must do next. A lost surface is configured again at the stored size.
    pub fn step(&mut self, e: FrameEvent) -> (r: FrameCommand)
        requires
            old(self).wf(),
        ensures
            final(self).wf(),
            *final(self) == old(self).next(e),
            r == old(self).command(e),
    {
        let r = match (self.phase, e) {
            (Phase::Idle, FrameEvent::RedrawRequested) => FrameCommand::UpdateCamera,
            (Phase::Updating, FrameEvent::Completed) => FrameCommand::AcquireFrame,
            (Phase::Acquiring, FrameEvent::Acquired) => FrameCommand::RecordPass,
            (Phase::Acquiring, FrameEvent::AcquireFailed(err)) => self.recover(err),
            (Phase::Recording, FrameEvent::Completed) => FrameCommand::Submit,
            (Phase::Submitting, FrameEvent::Completed) => FrameCommand::Present,
            _ => FrameCommand::Nothing,
        };
        self.phase = match (self.phase, e) {
            (Phase::Idle, FrameEvent::RedrawRequested) => Phase::Updating,
            (Phase::Updating, FrameEvent::Completed) => Phase::Acquiring,
            (Phase::Acquiring, FrameEvent::Acquired) => Phase::Recording,
            (Phase::Acquiring, FrameEvent::AcquireFailed(_)) => Phase::Idle,
            (Phase::Recording, FrameEvent::Completed) => Phase::Submitting,
            (Phase::Submitting, FrameEvent::Completed) => Phase::Presented,
            (Phase::Presented, FrameEvent::Completed) => Phase::Idle,
            (p, _) => p,
        };
        r
    }

    /// The command for a failed acquisition. A lost surface goes through the
    /// same reconfiguration as a resize to the stored size, which leaves the
    /// state as it was.
    pub fn recover(&mut self, err: SurfaceError) -> (r: FrameCommand)
        requires
            old(self).wf(),
        ensures
            *final(self) == *old(self),
            r == old(self).recovery(err),
    {
        match err {
            SurfaceError::Lost => {
                let size = self.surface.size;
                proof {
                    crate::surface::lemma_reconfigure_current_size(self.surface);
                }
                match self.resize(size) {
                    Some(config) => FrameCommand::Reconfigure(config),
                    None => FrameCommand::Nothing,
                }
            },
            SurfaceError::OutOfMemory => FrameCommand::Exit,
            _ => FrameCommand::Report(err),
        }
    }
}

/// A lost surface during acquisition is never fatal: it asks for exactly one
/// reconfiguration, with the configuration of the stored window size, leaves
/// the surface state as it was, and ends the frame.
pub proof fn lemma_lost_surface_recovers(s: State)
    requires
        s.wf(),
        s.phase == Phase::Acquiring,
        !s.surface.size.is_zero_area(),
    ensures
        s.command(FrameEvent::AcquireFailed(SurfaceError::Lost)) == FrameCommand::Reconfigure(
            s.surface.config,
        ),
        s.surface.config.width == s.surface.size.width,
        s.surface.config.height == s.surface.size.height,
        s.surface.reconfigured(s.surface.size) == s.surface,
        s.next(FrameEvent::AcquireFailed(SurfaceError::Lost)).surface == s.surface,
        s.next(FrameEvent::AcquireFailed(SurfaceError::Lost)).phase == Phase::Idle,
{
}

/// Only running out of memory during acquisition ends the loop.
pub proof fn lemma_only_out_of_memory_is_fatal(s: State, e: FrameEvent)
    requires
        s.wf(),
    ensures
        s.command(e) == FrameCommand::Exit <==> (s.phase == Phase::Acquiring && e
            == FrameEvent::AcquireFailed(SurfaceError::OutOfMemory)),
{
}

/// From Idle, the events Redraw, Completed, Acquired, Completed, Completed,
/// Completed walk once round the cycle, asking in turn to update the camera,
/// acquire, record, submit and present, and end in Idle.
pub proof fn lemma_frame_cycle(s: State)
    requires
        s.phase == Phase::Idle,
    ensures
        ({
            let s1 = s.next(FrameEvent::RedrawRequested);
            let s2 = s1.next(FrameEvent::Completed);
            let s3 = s2.next(FrameEvent::Acquired);
            let s4 = s3.next(FrameEvent::Completed);
            let s5 = s4.next(FrameEvent::Completed);
            let s6 = s5.next(FrameEvent::Completed);
            &&& s.command(FrameEvent::RedrawRequested) == FrameCommand::UpdateCamera
            &&& s1.phase == Phase::Updating
            &&& s1.command(FrameEvent::Completed) == FrameCommand::AcquireFrame
            &&& s2.phase == Phase::Acquiring
            &&& s2.command(FrameEvent::Acquired) == FrameCommand::RecordPass
            &&& s3.phase == Phase::Recording
            &&& s3.command(FrameEvent::Completed) == FrameCommand::Submit
            &&& s4.phase == Phase::Submitting
            &&& s4.command(FrameEvent::Completed) == FrameCommand::Present
            &&& s5.phase == Phase::Presented
            &&& s6.phase == Phase::Idle
            &&& s6.surface == s.surface
            &&& s6.controller == s.controller
        }),
{
}

} // verus!
