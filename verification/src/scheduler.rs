//! The frame scheduler: the one owner of the program and of the frame
//! counter, which decides event by event whether to reload, to draw or to
//! leave.

use crate::event::{Action, Event, Flow, Mode, Snapshot, Uniforms};
use crate::model::{draws, first_frame, flow_after, initial, reaction, step, State};
use crate::shader::LoadError;
use vstd::prelude::*;

verus! {

/// The scheduler of a render loop. It holds the last program that loaded, so
/// there is always one to draw with, and the number of the last frame drawn.
#[derive(Debug)]
pub struct Scheduler<P> {
    mode: Mode,
    frame: i32,
    program: P,
}

impl<P> View for Scheduler<P> {
    type V = State<P>;

    closed spec fn view(&self) -> State<P> {
        State { mode: self.mode, frame: self.frame as nat, program: self.program }
    }
}

impl<P> Scheduler<P> {
    #[verifier::type_invariant]
    spec fn counts_from_zero(self) -> bool {
        self.frame >= 0
    }

    /// Starts a scheduler from the outcome of the first load. With a program
    /// it starts at frame 0 and has that frame drawn at once, at time 0 and
    /// at the given size. Without one there is nothing to fall back on: the
    /// error comes back, and the process has to end.
    pub fn start(
        mode: Mode,
        first_load: Result<P, LoadError>,
        width: u32,
        height: u32,
    ) -> (started: Result<(Scheduler<P>, Action), LoadError>)
        ensures
            (match first_load {
                Ok(program) => {
                    &&& started matches Ok((scheduler, action))
                    &&& scheduler@ == initial(mode, program)
                    &&& action == first_frame(width, height)
                },
                Err(error) => started matches Err(e) && e == error,
            }),
    {
        match first_load {
            Ok(program) => {
                let scheduler = Scheduler { mode, frame: 0, program };
                let action = Action::Draw(Uniforms { width, height, elapsed_nanos: 0, frame: 0 });
                Ok((scheduler, action))
            },
            Err(error) => Err(error),
        }
    }

    /// The mode this scheduler was started in.
    pub fn mode(&self) -> (mode: Mode)
        ensures
            mode == self@.mode,
    {
        self.mode
    }

    /// The number of the frame drawn last.
    pub fn frame_counter(&self) -> (frame: i32)
        ensures
            frame == self@.frame,
    {
        proof {
            use_type_invariant(self);
        }
        self.frame
    }

    /// The program to draw with.
    pub fn program(&self) -> (program: &P)
        ensures
            *program == self@.program,
    {
        &self.program
    }

    /// Whether `handle` may be called with `event`: it may unless the event
    /// asks for a frame whose number no longer fits the counter.
    pub fn accepts(&self, event: &Event<P>) -> (ok: bool)
        ensures
            ok == (draws(self@, *event) ==> self@.frame < i32::MAX),
    {
        proof {
            use_type_invariant(self);
        }
        let wanted = match self.mode {
            Mode::Reactive => matches!(
                event,
                Event::Loaded(_) | Event::Resized | Event::RedrawRequested
            ),
            Mode::Live => matches!(event, Event::Tick),
        };
        !wanted || self.frame < i32::MAX
    }

    /// Handles one event. The new state and the action are those of the
    /// model; the clauses after the first two spell out what follows for the
    /// frame counter, for the program and for reloads.
    pub fn handle(&mut self, event: Event<P>, snapshot: Snapshot) -> (action: Action)
        requires
            draws(old(self)@, event) ==> old(self)@.frame < i32::MAX,
        ensures
            final(self)@ == step(old(self)@, event),
            action == reaction(old(self)@, event, snapshot),
            final(self)@.frame == old(self)@.frame + (if action is Draw {
                1nat
            } else {
                0nat
            }),
            action matches Action::Draw(uniforms) ==> uniforms.frame == final(self)@.frame,
            !(event is Loaded) ==> final(self)@.program == old(self)@.program,
            event matches Event::LoadFailed(error) ==> action == Action::Report(error),
            (action is Reload) <==> (event is Reload),
    {
        proof {
            use_type_invariant(&*self);
        }
        match event {
            Event::Reload => Action::Reload,
            Event::Loaded(program) => {
                self.program = program;
                self.draw_in(Mode::Reactive, snapshot)
            },
            Event::LoadFailed(error) => Action::Report(error),
            Event::Resized | Event::RedrawRequested => self.draw_in(Mode::Reactive, snapshot),
            Event::CloseRequested => Action::Exit,
            Event::Tick => self.draw_in(Mode::Live, snapshot),
            Event::Other => Action::Nothing,
        }
    }

    /// How the loop goes on once `action` has been carried out.
    pub fn flow_after(&self, action: &Action) -> (flow: Flow)
        ensures
            flow == flow_after(self@.mode, *action),
    {
        match action {
            Action::Exit => Flow::Exit,
            _ => match self.mode {
                Mode::Reactive => Flow::Wait,
                Mode::Live => Flow::Poll,
            },
        }
    }

    /// Draws the next frame if the scheduler is in `mode`, and does nothing
    /// otherwise.
    fn draw_in(&mut self, mode: Mode, snapshot: Snapshot) -> (action: Action)
        requires
            old(self).mode == mode ==> old(self).frame < i32::MAX,
        ensures
            final(self).mode == old(self).mode,
            final(self).program == old(self).program,
            old(self).mode == mode ==> ({
                &&& final(self).frame == old(self).frame + 1
                &&& action == Action::Draw(
                    Uniforms {
                        width: snapshot.width,
                        height: snapshot.height,
                        elapsed_nanos: snapshot.elapsed_nanos,
                        frame: final(self).frame,
                    },
                )
            }),
            old(self).mode != mode ==> ({
                &&& final(self).frame == old(self).frame
                &&& action == Action::Nothing
            }),
    {
        proof {
            use_type_invariant(&*self);
        }
        if self.mode == mode {
            self.frame = self.frame + 1;
            Action::Draw(
                Uniforms {
                    width: snapshot.width,
                    height: snapshot.height,
                    elapsed_nanos: snapshot.elapsed_nanos,
                    frame: self.frame,
                },
            )
        } else {
            Action::Nothing
        }
    }
}

} // verus!
