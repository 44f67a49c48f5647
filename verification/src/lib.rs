//! Core state of a minimal real-time rendering loop.
//!
//! The crate models the render-state machine of a single-window,
//! single-pass renderer: the presentation surface configuration and its
//! resize rule, the camera input controller, the clear-color channel
//! state driven by cursor movement, the per-frame render plan, the
//! recovery decision for frame-acquisition errors, and the decoding of
//! texture images into raw RGBA pixel data.  The host event loop and the
//! graphics device live outside the crate; they feed events in and carry
//! the resulting plans out.

mod camera;
mod color;
mod frame;
mod geometry;
mod input;
mod surface;
mod texture;

pub use camera::CameraController;
pub use color::ClearColor;
pub use color::ColorChannel;
pub use frame::recovery_for;
pub use frame::FrameRecovery;
pub use frame::LoopAction;
pub use frame::RenderPlan;
pub use frame::RenderState;
pub use frame::SurfaceError;
pub use frame::TextureSelect;
pub use geometry::indices_in_bounds;
pub use geometry::with_padding;
pub use geometry::GeometryBuffer;
pub use input::Key;
pub use input::WindowEvent;
pub use surface::SurfaceConfig;
pub use texture::image_rgba8;
pub use texture::DecodedImage;
pub use texture::TextureError;
