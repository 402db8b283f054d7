//! What holds of every trace of events, proved from the model.

use crate::event::{Event, Mode};
use crate::model::{
    draw_count, draws, is_trigger, last_loaded, run, step, tick_count, trigger_count, State,
};
use crate::shader::LoadError;
use vstd::prelude::*;

verus! {

/// Handling `first` and then `rest` is handling the two one after the other:
/// the states compose and the draws add up.
pub proof fn traces_compose<P>(s: State<P>, first: Seq<Event<P>>, rest: Seq<Event<P>>)
    ensures
        run(s, first + rest) == run(run(s, first), rest),
        draw_count(s, first + rest) == draw_count(s, first) + draw_count(run(s, first), rest),
    decreases rest.len(),
{
    if rest.len() == 0 {
        assert(first + rest =~= first);
    } else {
        assert((first + rest).drop_last() =~= first + rest.drop_last());
        assert((first + rest).last() == rest.last());
        traces_compose(s, first, rest.drop_last());
    }
}

/// The mode of a scheduler never changes.
pub proof fn mode_is_fixed<P>(s: State<P>, es: Seq<Event<P>>)
    ensures
        run(s, es).mode == s.mode,
    decreases es.len(),
{
    if es.len() > 0 {
        mode_is_fixed(s, es.drop_last());
    }
}

/// The frame counter counts the draws and nothing else: after any trace it
/// has grown by the number of frames drawn on the way.
pub proof fn frame_counter_counts_draws<P>(s: State<P>, es: Seq<Event<P>>)
    ensures
        run(s, es).frame == s.frame + draw_count(s, es),
    decreases es.len(),
{
    if es.len() > 0 {
        frame_counter_counts_draws(s, es.drop_last());
    }
}

/// The frame counter never goes down: of two moments in a trace, the later
/// one has the counter at least as high, and higher by exactly the number of
/// frames drawn in between.
pub proof fn frame_counter_never_decreases<P>(s: State<P>, es: Seq<Event<P>>, i: int, j: int)
    requires
        0 <= i <= j <= es.len(),
    ensures
        run(s, es.take(i)).frame <= run(s, es.take(j)).frame,
        run(s, es.take(j)).frame == run(s, es.take(i)).frame + draw_count(
            run(s, es.take(i)),
            es.subrange(i, j),
        ),
{
    assert(es.take(j) =~= es.take(i) + es.subrange(i, j));
    traces_compose(s, es.take(i), es.subrange(i, j));
    frame_counter_counts_draws(run(s, es.take(i)), es.subrange(i, j));
}

/// The program in use is the one that loaded last, and the one the scheduler
/// started with until one does.
pub proof fn program_is_last_loaded<P>(s: State<P>, es: Seq<Event<P>>)
    ensures
        run(s, es).program == (match last_loaded(es) {
            Some(program) => program,
            None => s.program,
        }),
    decreases es.len(),
{
    if es.len() > 0 {
        program_is_last_loaded(s, es.drop_last());
    }
}

/// A failed reload changes nothing that a draw uses: the program that was in
/// use before it stays in use afterwards, for as long as no other program
/// loads, and the failure itself draws no frame.
pub proof fn failed_reload_keeps_program<P>(
    s: State<P>,
    before: Seq<Event<P>>,
    error: LoadError,
    after: Seq<Event<P>>,
)
    requires
        forall|i: int| 0 <= i < after.len() ==> !(#[trigger] after[i] is Loaded),
    ensures
        run(s, before.push(Event::LoadFailed(error)) + after).program == run(s, before).program,
        !draws(run(s, before), Event::<P>::LoadFailed(error)),
        step(run(s, before), Event::<P>::LoadFailed(error)) == run(s, before),
{
    let failed = before.push(Event::LoadFailed(error));
    assert(failed.drop_last() =~= before);
    traces_compose(s, failed, after);
    program_is_last_loaded(run(s, failed), after);
    nothing_loads(after);
}

/// A trace without a `Loaded` event has no last loaded program.
proof fn nothing_loads<P>(es: Seq<Event<P>>)
    requires
        forall|i: int| 0 <= i < es.len() ==> !(#[trigger] es[i] is Loaded),
    ensures
        last_loaded(es) is None,
    decreases es.len(),
{
    if es.len() > 0 {
        assert(!(es[es.len() - 1] is Loaded));
        nothing_loads(es.drop_last());
    }
}

/// Loading the same program a second time leaves the same program in use as
/// loading it once; all it adds is the frame that reactive mode draws for it.
pub proof fn reloading_again_keeps_program<P>(s: State<P>, program: P)
    ensures
        ({
            let once = step(s, Event::Loaded(program));
            let twice = step(once, Event::Loaded(program));
            &&& twice.program == once.program
            &&& twice.mode == once.mode
            &&& twice.frame == once.frame + (if s.mode == Mode::Reactive {
                1nat
            } else {
                0nat
            })
        }),
{
}

/// In reactive mode a frame is drawn for each load, resize and redraw
/// request, and for nothing else.
pub proof fn reactive_draws_once_per_trigger<P>(s: State<P>, es: Seq<Event<P>>)
    requires
        s.mode == Mode::Reactive,
    ensures
        draw_count(s, es) == trigger_count(es),
    decreases es.len(),
{
    if es.len() > 0 {
        reactive_draws_once_per_trigger(s, es.drop_last());
        mode_is_fixed(s, es.drop_last());
    }
}

/// In reactive mode nothing is drawn between one load, resize or redraw
/// request and the next: a stretch of other events, wherever it stands in a
/// trace, draws no frame and leaves the counter alone.
pub proof fn reactive_never_draws_unasked<P>(s: State<P>, before: Seq<Event<P>>, quiet: Seq<Event<P>>)
    requires
        s.mode == Mode::Reactive,
        forall|i: int| 0 <= i < quiet.len() ==> !is_trigger(#[trigger] quiet[i]),
    ensures
        draw_count(s, before + quiet) == draw_count(s, before),
        run(s, before + quiet).frame == run(s, before).frame,
{
    traces_compose(s, before, quiet);
    mode_is_fixed(s, before);
    reactive_draws_once_per_trigger(run(s, before), quiet);
    no_triggers(quiet);
    frame_counter_counts_draws(run(s, before), quiet);
}

/// A trace without a load, resize or redraw request has no trigger to count.
proof fn no_triggers<P>(es: Seq<Event<P>>)
    requires
        forall|i: int| 0 <= i < es.len() ==> !is_trigger(#[trigger] es[i]),
    ensures
        trigger_count(es) == 0,
    decreases es.len(),
{
    if es.len() > 0 {
        assert(!is_trigger(es[es.len() - 1]));
        no_triggers(es.drop_last());
    }
}

/// In live mode exactly one frame is drawn per tick, whatever else arrives
/// between the ticks.
pub proof fn live_draws_once_per_tick<P>(s: State<P>, es: Seq<Event<P>>)
    requires
        s.mode == Mode::Live,
    ensures
        draw_count(s, es) == tick_count(es),
    decreases es.len(),
{
    if es.len() > 0 {
        live_draws_once_per_tick(s, es.drop_last());
        mode_is_fixed(s, es.drop_last());
    }
}

} // verus!
