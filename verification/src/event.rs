//! What the render loop hands to the scheduler, and what it is told to do.

use crate::shader::LoadError;
use vstd::prelude::*;

verus! {

/// How the render loop spends the time between events.
#[derive(Clone, Copy, PartialEq, Eq, Debug, Structural)]
pub enum Mode {
    /// Block until an event arrives, and redraw only in answer to one.
    Reactive,
    /// Never block, and redraw once per turn of the loop.
    Live,
}

impl Mode {
    /// The mode that the command line's `--live` flag selects.
    pub fn from_live_flag(live: bool) -> (mode: Mode)
        ensures
            mode == (if live {
                Mode::Live
            } else {
                Mode::Reactive
            }),
    {
        if live {
            Mode::Live
        } else {
            Mode::Reactive
        }
    }
}

/// What the event loop does once the current event has been handled.
#[derive(Clone, Copy, PartialEq, Eq, Debug, Structural)]
pub enum Flow {
    /// Sleep until the next event arrives.
    Wait,
    /// Start the next turn at once.
    Poll,
    /// Leave the loop and release the device.
    Exit,
}

/// What the loop reads before it hands an event over: the clock and the size
/// of the framebuffer.
#[derive(Clone, Copy, PartialEq, Eq, Debug, Structural)]
pub struct Snapshot {
    /// Nanoseconds since the process started.
    pub elapsed_nanos: u64,
    /// Width of the framebuffer in pixels.
    pub width: u32,
    /// Height of the framebuffer in pixels.
    pub height: u32,
}

/// The inputs of one draw call, as whole numbers. The renderer turns them
/// into the resolution `(width, height, height / width)`, the time in
/// seconds and the frame number that the shader sees.
#[derive(Clone, Copy, PartialEq, Eq, Debug, Structural)]
pub struct Uniforms {
    /// Width of the framebuffer in pixels.
    pub width: u32,
    /// Height of the framebuffer in pixels.
    pub height: u32,
    /// Nanoseconds since the process started.
    pub elapsed_nanos: u64,
    /// Number of this frame; the first frame drawn is frame 0.
    pub frame: i32,
}

/// One thing that happened, as the render loop sees it. `P` is the type of a
/// compiled program.
#[derive(PartialEq, Eq, Debug)]
pub enum Event<P> {
    /// The watcher saw the shader file change.
    Reload,
    /// The shader file was read and compiled afresh; this is the program.
    Loaded(P),
    /// The shader file could not be read or compiled.
    LoadFailed(LoadError),
    /// The window changed size.
    Resized,
    /// The window system asks for the window's contents.
    RedrawRequested,
    /// The user asks to close the window.
    CloseRequested,
    /// All pending events of this turn of the loop have been handled.
    Tick,
    /// Anything else; it is of no consequence.
    Other,
}

impl<P> Event<P> {
    /// The event that tells the scheduler how a load went.
    pub fn from_load(outcome: Result<P, LoadError>) -> (event: Event<P>)
        ensures
            event == (match outcome {
                Ok(program) => Event::Loaded(program),
                Err(error) => Event::LoadFailed(error),
            }),
    {
        match outcome {
            Ok(program) => Event::Loaded(program),
            Err(error) => Event::LoadFailed(error),
        }
    }
}

/// What the render loop has to do in answer to an event.
#[derive(PartialEq, Eq, Debug)]
pub enum Action {
    /// Nothing at all.
    Nothing,
    /// Read the shader file, compile it, and hand back how that went, as
    /// `Event::from_load` puts it.
    Reload,
    /// Draw one frame with the current program and these inputs.
    Draw(Uniforms),
    /// Tell the user why the shader did not load; the picture stays as it is.
    Report(LoadError),
    /// Leave the loop. The scheduler keeps no record of this: events that
    /// the loop still delivers on its way out are answered like any other.
    Exit,
}

} // verus!
