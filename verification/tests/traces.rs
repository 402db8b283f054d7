//! Whole traces of events: what the counter, the program and the draws come
//! to at the end.

use fragwatch::{Action, Event, LoadError, Mode, Scheduler, Snapshot};

fn snapshot(turn: u64) -> Snapshot {
    Snapshot { elapsed_nanos: turn * 1_000_000, width: 100, height: 50 }
}

fn trace() -> Vec<Event<char>> {
    vec![
        Event::Tick,
        Event::Resized,
        Event::Other,
        Event::Reload,
        Event::LoadFailed(LoadError::Compile("no main".to_string())),
        Event::Tick,
        Event::RedrawRequested,
        Event::Reload,
        Event::Loaded('b'),
        Event::Tick,
        Event::Reload,
        Event::LoadFailed(LoadError::Read("busy".to_string())),
        Event::Resized,
        Event::CloseRequested,
    ]
}

fn frames_drawn(mode: Mode, events: Vec<Event<char>>) -> (Scheduler<char>, Vec<i32>) {
    let (mut scheduler, _) = Scheduler::start(mode, Ok('a'), 100, 50).unwrap();
    let mut frames = Vec::new();
    let mut turn = 0;
    for event in events {
        turn += 1;
        let before = scheduler.frame_counter();
        let action = scheduler.handle(event, snapshot(turn));
        match action {
            Action::Draw(uniforms) => {
                assert_eq!(uniforms.frame, before + 1);
                assert_eq!(uniforms.elapsed_nanos, turn * 1_000_000);
                assert_eq!(scheduler.frame_counter(), before + 1);
                frames.push(uniforms.frame);
            }
            _ => assert_eq!(scheduler.frame_counter(), before),
        }
    }
    (scheduler, frames)
}

#[test]
fn reactive_trace_draws_once_per_load_resize_and_redraw_request() {
    let (scheduler, frames) = frames_drawn(Mode::Reactive, trace());
    assert_eq!(frames, vec![1, 2, 3, 4]);
    assert_eq!(scheduler.frame_counter(), 4);
    assert_eq!(*scheduler.program(), 'b');
}

#[test]
fn live_trace_draws_once_per_tick() {
    let (scheduler, frames) = frames_drawn(Mode::Live, trace());
    assert_eq!(frames, vec![1, 2, 3]);
    assert_eq!(scheduler.frame_counter(), 3);
    assert_eq!(*scheduler.program(), 'b');
}

#[test]
fn reactive_mode_draws_nothing_unasked() {
    let quiet = vec![
        Event::Tick,
        Event::Other,
        Event::Reload,
        Event::LoadFailed(LoadError::Compile("x".to_string())),
        Event::CloseRequested,
        Event::Tick,
        Event::Tick,
    ];
    let (scheduler, frames) = frames_drawn(Mode::Reactive, quiet);
    assert!(frames.is_empty());
    assert_eq!(scheduler.frame_counter(), 0);
}

#[test]
fn live_mode_draws_nothing_without_a_tick() {
    let tickless = vec![
        Event::Resized,
        Event::RedrawRequested,
        Event::Reload,
        Event::Loaded('z'),
        Event::Other,
    ];
    let (scheduler, frames) = frames_drawn(Mode::Live, tickless);
    assert!(frames.is_empty());
    assert_eq!(scheduler.frame_counter(), 0);
    assert_eq!(*scheduler.program(), 'z');
}

#[test]
fn the_empty_trace_changes_nothing() {
    let (scheduler, frames) = frames_drawn(Mode::Reactive, Vec::new());
    assert!(frames.is_empty());
    assert_eq!(scheduler.frame_counter(), 0);
    assert_eq!(*scheduler.program(), 'a');
}

fn loads_and_failures() -> Vec<Event<char>> {
    vec![
        Event::Loaded('b'),
        Event::LoadFailed(LoadError::Compile("first".to_string())),
        Event::Loaded('c'),
        Event::LoadFailed(LoadError::Compile("second".to_string())),
        Event::LoadFailed(LoadError::Read("third".to_string())),
        Event::Resized,
    ]
}

#[test]
fn the_program_is_the_last_one_that_loaded() {
    for mode in [Mode::Reactive, Mode::Live] {
        let (scheduler, _) = frames_drawn(mode, loads_and_failures());
        assert_eq!(*scheduler.program(), 'c');
    }
}

#[test]
fn loading_the_same_program_twice_is_loading_it_once() {
    let (once, _) = frames_drawn(Mode::Live, vec![Event::Loaded('q')]);
    let (twice, _) = frames_drawn(Mode::Live, vec![Event::Loaded('q'), Event::Loaded('q')]);
    assert_eq!(*once.program(), *twice.program());
    assert_eq!(once.frame_counter(), twice.frame_counter());
}

#[test]
fn handling_a_trace_in_two_parts_is_handling_it_whole() {
    let (whole, whole_frames) = frames_drawn(Mode::Reactive, trace());
    let mut first = trace();
    let rest = first.split_off(6);
    let (mut scheduler, mut frames) = frames_drawn(Mode::Reactive, first);
    for event in rest {
        if let Action::Draw(uniforms) = scheduler.handle(event, snapshot(0)) {
            frames.push(uniforms.frame);
        }
    }
    assert_eq!(frames, whole_frames);
    assert_eq!(scheduler.frame_counter(), whole.frame_counter());
    assert_eq!(*scheduler.program(), *whole.program());
}

#[test]
fn the_counter_never_goes_down() {
    for mode in [Mode::Reactive, Mode::Live] {
        let (mut scheduler, _) = Scheduler::start(mode, Ok('a'), 100, 50).unwrap();
        let mut last = scheduler.frame_counter();
        for event in trace() {
            scheduler.handle(event, snapshot(1));
            assert!(scheduler.frame_counter() >= last);
            assert!(scheduler.frame_counter() - last <= 1);
            last = scheduler.frame_counter();
        }
    }
}
