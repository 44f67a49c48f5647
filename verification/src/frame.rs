//! The frame orchestrator's state machine.
//!
//! `RenderState` is the event-driven core of the renderer: the surface
//! configuration, the clear color, the camera controller and the
//! texture toggle.  The host event loop feeds it window events and, on
//! each redraw signal, asks it for a render plan — which pipeline
//! resources to bind and what to clear to — and executes that plan on
//! the device.  When acquiring a frame fails, the host asks it how to
//! recover.

use vstd::prelude::*;

use crate::camera::CameraController;
use crate::color::ClearColor;
use crate::input::{is_camera_key, Key, WindowEvent};
use crate::surface::SurfaceConfig;

verus! {

/// The ways acquiring a presentable frame can fail, one per failure
/// the presentation backend reports.
#[derive(Clone, Copy, PartialEq, Eq, Structural, Debug)]
pub enum SurfaceError {
    /// A frame was not ready in time.
    Timeout,
    /// The surface no longer matches the window and must be updated.
    Outdated,
    /// The swap chain was lost and must be recreated.
    Lost,
    /// No memory was left for the frame.
    OutOfMemory,
}

/// What the host must do after a failed frame acquisition.
#[derive(Clone, Copy, PartialEq, Eq, Structural, Debug)]
pub enum FrameRecovery {
    /// Reconfigure the surface at the current size, skip this frame.
    Reconfigure,
    /// Fatal: end the event loop.
    Terminate,
    /// Skip this frame; the next tick retries.
    SkipFrame,
}

/// Which texture bind group the render pass binds at slot zero.
#[derive(Clone, Copy, PartialEq, Eq, Structural, Debug)]
pub enum TextureSelect {
    Diffuse,
    Cartoon,
}

/// What the host must tell the event loop after a window event.
#[derive(Clone, Copy, PartialEq, Eq, Structural, Debug)]
pub enum LoopAction {
    /// Keep running.
    Continue,
    /// End the event loop.
    Exit,
}

/// One frame's render pass, decided: a single color attachment cleared
/// to `clear_color` and stored, the selected texture bind group, the
/// camera bind group, and one indexed draw of `index_count` indices
/// with one instance.
#[derive(Clone, Copy, PartialEq, Eq, Structural, Debug)]
pub struct RenderPlan {
    pub clear_color: ClearColor,
    pub texture: TextureSelect,
    pub index_count: usize,
}

/// The recovery the render loop applies to each frame-acquisition
/// failure: a lost surface is reconfigured, memory exhaustion is
/// fatal, anything transient is skipped and retried next tick.
pub open spec fn recovery_spec(error: SurfaceError) -> FrameRecovery {
    match error {
        SurfaceError::Lost => FrameRecovery::Reconfigure,
        SurfaceError::OutOfMemory => FrameRecovery::Terminate,
        SurfaceError::Timeout | SurfaceError::Outdated => FrameRecovery::SkipFrame,
    }
}

pub fn recovery_for(error: SurfaceError) -> (r: FrameRecovery)
    ensures
        r == recovery_spec(error),
{
    match error {
        SurfaceError::Lost => FrameRecovery::Reconfigure,
        SurfaceError::OutOfMemory => FrameRecovery::Terminate,
        SurfaceError::Timeout | SurfaceError::Outdated => FrameRecovery::SkipFrame,
    }
}

/// The render loop's mutable state, owned by the orchestrator and
/// touched only from the event-processing path.
#[derive(Clone, Copy, PartialEq, Eq, Structural, Debug)]
pub struct RenderState {
    pub config: SurfaceConfig,
    pub clear_color: ClearColor,
    pub camera_controller: CameraController,
    pub is_space_pressed: bool,
    pub index_count: usize,
}

impl RenderState {
    pub open spec fn wf(self) -> bool {
        self.config.wf() && self.clear_color.wf()
    }

    /// The state after one event was offered to `input`, and whether
    /// the event was consumed there: camera keys drive the controller,
    /// a cursor move recolors the clear color from the position
    /// normalized by the current surface size, the space key sets the
    /// texture toggle to its own pressed state; everything else is
    /// left to the outer routing.
    pub open spec fn input_spec(self, event: WindowEvent) -> (RenderState, bool) {
        match event {
            WindowEvent::Keyboard { key, pressed } => if is_camera_key(key) {
                (
                    RenderState {
                        camera_controller: self.camera_controller.updated(key, pressed),
                        ..self
                    },
                    true,
                )
            } else if key == Key::Space {
                (RenderState { is_space_pressed: pressed, ..self }, true)
            } else {
                (self, false)
            },
            WindowEvent::CursorMoved { x, y } => (
                RenderState {
                    clear_color: ClearColor::from_cursor_spec(x, y, self.config),
                    ..self
                },
                true,
            ),
            _ => (self, false),
        }
    }

    /// The state after the full event routing, and what the event loop
    /// must do next: events `input` consumes are done; of the rest, a
    /// close request or an escape press ends the loop, a resize or
    /// scale-factor change applies the resize rule, anything else is
    /// ignored.
    pub open spec fn step_spec(self, event: WindowEvent) -> (RenderState, LoopAction) {
        let (after_input, consumed) = self.input_spec(event);
        if consumed {
            (after_input, LoopAction::Continue)
        } else {
            match event {
                WindowEvent::CloseRequested => (self, LoopAction::Exit),
                WindowEvent::Keyboard { key, pressed } => if key == Key::Escape && pressed {
                    (self, LoopAction::Exit)
                } else {
                    (self, LoopAction::Continue)
                },
                WindowEvent::Resized { width, height } => (
                    RenderState { config: self.config.resize_spec(width, height), ..self },
                    LoopAction::Continue,
                ),
                WindowEvent::ScaleFactorChanged { width, height } => (
                    RenderState { config: self.config.resize_spec(width, height), ..self },
                    LoopAction::Continue,
                ),
                _ => (self, LoopAction::Continue),
            }
        }
    }

    /// The state the loop starts in: the window's initial inner size,
    /// the startup clear color, no key held, the diffuse texture, and
    /// the index count of the uploaded geometry.
    pub fn new(width: u32, height: u32, index_count: usize) -> (s: RenderState)
        requires
            width > 0,
            height > 0,
        ensures
            s.config == (SurfaceConfig { width, height }),
            s.clear_color == ClearColor::startup(),
            s.camera_controller == CameraController::initial(),
            !s.is_space_pressed,
            s.index_count == index_count,
            s.wf(),
    {
        RenderState {
            config: SurfaceConfig::new(width, height),
            clear_color: ClearColor::initial(),
            camera_controller: CameraController::new(),
            is_space_pressed: false,
            index_count,
        }
    }

    /// Applies a resize request to the surface configuration alone: a
    /// request with a zero dimension changes nothing, any other
    /// request replaces both dimensions.  Returns whether the surface
    /// must be reconfigured against the device.
    pub fn resize(&mut self, new_width: u32, new_height: u32) -> (reconfigure: bool)
        requires
            old(self).wf(),
        ensures
            final(self).wf(),
            final(self).config == old(self).config.resize_spec(new_width, new_height),
            new_width > 0 && new_height > 0 ==> final(self).config.width == new_width
                && final(self).config.height == new_height,
            new_width == 0 || new_height == 0 ==> *final(self) == *old(self),
            *final(self) == (RenderState {
                config: old(self).config.resize_spec(new_width, new_height),
                ..*old(self)
            }),
            reconfigure == (new_width > 0 && new_height > 0),
    {
        self.config.resize(new_width, new_height)
    }

    /// Offers one event to the renderer's own input handling and
    /// reports whether it was consumed there.
    pub fn input(&mut self, event: &WindowEvent) -> (consumed: bool)
        requires
            old(self).wf(),
        ensures
            final(self).wf(),
            (*final(self), consumed) == old(self).input_spec(*event),
            *event matches WindowEvent::Keyboard { key: Key::Space, pressed }
                ==> final(self).is_space_pressed == pressed && consumed,
            *event matches WindowEvent::CursorMoved { x, y } ==> final(self).clear_color
                == ClearColor::from_cursor_spec(x, y, old(self).config) && consumed,
    {
        if self.camera_controller.process_events(event) {
            return true;
        }
        match event {
            WindowEvent::CursorMoved { x, y } => {
                self.clear_color = ClearColor::from_cursor(*x, *y, &self.config);
                true
            },
            WindowEvent::Keyboard { key: Key::Space, pressed } => {
                self.is_space_pressed = *pressed;
                true
            },
            _ => false,
        }
    }

    /// Routes one window event the way the event loop does: first to
    /// `input`, then to the close/escape/resize handling.
    pub fn on_window_event(&mut self, event: &WindowEvent) -> (action: LoopAction)
        requires
            old(self).wf(),
        ensures
            final(self).wf(),
            (*final(self), action) == old(self).step_spec(*event),
            action == LoopAction::Exit <==> (*event == WindowEvent::CloseRequested || *event
                == (WindowEvent::Keyboard { key: Key::Escape, pressed: true })),
    {
        if self.input(event) {
            return LoopAction::Continue;
        }
        match event {
            WindowEvent::CloseRequested => LoopAction::Exit,
            WindowEvent::Keyboard { key: Key::Escape, pressed: true } => LoopAction::Exit,
            WindowEvent::Resized { width, height } => {
                self.resize(*width, *height);
                LoopAction::Continue
            },
            WindowEvent::ScaleFactorChanged { width, height } => {
                self.resize(*width, *height);
                LoopAction::Continue
            },
            _ => LoopAction::Continue,
        }
    }

    /// Decides one frame's render pass from the current state: clear
    /// to the current clear color, bind the cartoon texture exactly
    /// while space is held, and draw the whole index range once.
    pub fn render_plan(&self) -> (plan: RenderPlan)
        ensures
            plan.clear_color == self.clear_color,
            plan.texture == (if self.is_space_pressed {
                TextureSelect::Cartoon
            } else {
                TextureSelect::Diffuse
            }),
            plan.index_count == self.index_count,
    {
        RenderPlan {
            clear_color: self.clear_color,
            texture: if self.is_space_pressed {
                TextureSelect::Cartoon
            } else {
                TextureSelect::Diffuse
            },
            index_count: self.index_count,
        }
    }
}

} // verus!
