//! The scheduler as mathematics: its state, what one event does to it, and
//! what a whole trace of events does.

use crate::event::{Action, Event, Flow, Mode, Snapshot, Uniforms};
use vstd::prelude::*;

verus! {

/// The state of a scheduler. `P` is the type of a compiled program.
pub ghost struct State<P> {
    /// Whether the loop blocks or polls; it never changes.
    pub mode: Mode,
    /// Number of the frame drawn last.
    pub frame: nat,
    /// The program that draws use: the last one that loaded.
    pub program: P,
}

/// The events that call for a redraw in reactive mode.
pub open spec fn is_trigger<P>(e: Event<P>) -> bool {
    e is Loaded || e is Resized || e is RedrawRequested
}

/// Whether `e`, arriving in state `s`, makes the scheduler draw a frame.
pub open spec fn draws<P>(s: State<P>, e: Event<P>) -> bool {
    match s.mode {
        Mode::Reactive => is_trigger(e),
        Mode::Live => e is Tick,
    }
}

/// The state after `e` has been handled in state `s`.
pub open spec fn step<P>(s: State<P>, e: Event<P>) -> State<P> {
    State {
        mode: s.mode,
        frame: if draws(s, e) {
            s.frame + 1
        } else {
            s.frame
        },
        program: match e {
            Event::Loaded(program) => program,
            _ => s.program,
        },
    }
}

/// What the loop is told to do when `e` arrives in state `s` and the clock
/// and the framebuffer read `snapshot`. A frame is drawn with the readings
/// of the event that asked for it and with the next number, which is exact
/// for as long as it fits the 32 bits of the shader's frame counter.
pub open spec fn reaction<P>(s: State<P>, e: Event<P>, snapshot: Snapshot) -> Action {
    if draws(s, e) {
        Action::Draw(
            Uniforms {
                width: snapshot.width,
                height: snapshot.height,
                elapsed_nanos: snapshot.elapsed_nanos,
                frame: (s.frame + 1) as i32,
            },
        )
    } else {
        match e {
            Event::Reload => Action::Reload,
            Event::LoadFailed(error) => Action::Report(error),
            Event::CloseRequested => Action::Exit,
            _ => Action::Nothing,
        }
    }
}

/// How the loop goes on once `action` has been carried out: it leaves on
/// `Exit`, and otherwise polls in live mode and sleeps in reactive mode.
pub open spec fn flow_after(mode: Mode, action: Action) -> Flow {
    if action is Exit {
        Flow::Exit
    } else {
        match mode {
            Mode::Reactive => Flow::Wait,
            Mode::Live => Flow::Poll,
        }
    }
}

/// The state in which a scheduler starts: nothing counted yet.
pub open spec fn initial<P>(mode: Mode, program: P) -> State<P> {
    State { mode, frame: 0, program }
}

/// The draw that makes the window appear: frame 0 at time 0.
pub open spec fn first_frame(width: u32, height: u32) -> Action {
    Action::Draw(Uniforms { width, height, elapsed_nanos: 0, frame: 0 })
}

/// The state after the events of `es` have been handled in order.
pub open spec fn run<P>(s: State<P>, es: Seq<Event<P>>) -> State<P>
    decreases es.len(),
{
    if es.len() == 0 {
        s
    } else {
        step(run(s, es.drop_last()), es.last())
    }
}

/// The number of frames drawn while the events of `es` are handled in order.
pub open spec fn draw_count<P>(s: State<P>, es: Seq<Event<P>>) -> nat
    decreases es.len(),
{
    if es.len() == 0 {
        0
    } else {
        draw_count(s, es.drop_last()) + if draws(run(s, es.drop_last()), es.last()) {
            1nat
        } else {
            0nat
        }
    }
}

/// The number of events in `es` that call for a redraw in reactive mode.
pub open spec fn trigger_count<P>(es: Seq<Event<P>>) -> nat
    decreases es.len(),
{
    if es.len() == 0 {
        0
    } else {
        trigger_count(es.drop_last()) + if is_trigger(es.last()) {
            1nat
        } else {
            0nat
        }
    }
}

/// The number of ticks in `es`.
pub open spec fn tick_count<P>(es: Seq<Event<P>>) -> nat
    decreases es.len(),
{
    if es.len() == 0 {
        0
    } else {
        tick_count(es.drop_last()) + if es.last() is Tick {
            1nat
        } else {
            0nat
        }
    }
}

/// The program of the last `Loaded` event in `es`, if there is one.
pub open spec fn last_loaded<P>(es: Seq<Event<P>>) -> Option<P>
    decreases es.len(),
{
    if es.len() == 0 {
        None
    } else {
        match es.last() {
            Event::Loaded(program) => Some(program),
            _ => last_loaded(es.drop_last()),
        }
    }
}

} // verus!
