//! The core of a viewer that fills a window with one fragment shader and
//! draws it again when the shader file changes, or on every frame.
//!
//! The render loop, the file watch and the device stay with the caller. This
//! crate holds what they decide: [`Scheduler`] tells the loop, event by
//! event, whether to reload the shader, to draw a frame or to leave;
//! [`watcher`] tells the watcher thread what to do with a notice; [`failure`]
//! says which failures end the process. [`model`] states the scheduler as
//! mathematics, and [`laws`] proves what holds of every trace of events.

pub mod event;
pub mod failure;
pub mod geometry;
pub mod laws;
pub mod model;
pub mod scheduler;
pub mod shader;
pub mod watcher;

pub use event::{Action, Event, Flow, Mode, Snapshot, Uniforms};
pub use failure::{ends_process, severity, Failure, Severity};
pub use geometry::{quad_corners, quad_indices};
pub use scheduler::Scheduler;
pub use shader::{
    LoadError, ShaderSource, FRAME_UNIFORM, POSITION_ATTRIBUTE, RESOLUTION_UNIFORM, TIME_UNIFORM,
    VERTEX_SHADER,
};
pub use watcher::{after_post, relay, Delivery, Next, Notice, Relay, ReloadSignal};
