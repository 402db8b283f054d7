//! A session at the viewer, step by step, with programs named by the colour
//! they paint.

use fragwatch::{Action, Event, Flow, LoadError, Mode, Scheduler, Snapshot, Uniforms};

const RED: &str = "void main(){gl_FragColor=vec4(1,0,0,1);}";
const GREEN: &str = "void main(){gl_FragColor=vec4(0,1,0,1);}";

fn at(elapsed_nanos: u64, width: u32, height: u32) -> Snapshot {
    Snapshot { elapsed_nanos, width, height }
}

fn reactive_red() -> Scheduler<&'static str> {
    let (scheduler, _) = Scheduler::start(Mode::Reactive, Ok(RED), 800, 600).unwrap();
    scheduler
}

#[test]
fn first_frame_is_red_and_numbered_zero() {
    let (scheduler, action) = Scheduler::start(Mode::Reactive, Ok(RED), 800, 600).unwrap();
    assert_eq!(
        action,
        Action::Draw(Uniforms { width: 800, height: 600, elapsed_nanos: 0, frame: 0 })
    );
    assert_eq!(*scheduler.program(), RED);
    assert_eq!(scheduler.frame_counter(), 0);
    assert_eq!(scheduler.mode(), Mode::Reactive);
}

#[test]
fn broken_edit_is_reported_and_the_picture_stays() {
    let mut scheduler = reactive_red();
    assert_eq!(scheduler.handle(Event::Reload, at(1_000, 800, 600)), Action::Reload);
    let diagnostic = LoadError::Compile("0:1(1): error: syntax error".to_string());
    let action = scheduler.handle(
        Event::LoadFailed(LoadError::Compile("0:1(1): error: syntax error".to_string())),
        at(1_500, 800, 600),
    );
    assert_eq!(action, Action::Report(diagnostic));
    assert_eq!(*scheduler.program(), RED);
    assert_eq!(scheduler.frame_counter(), 0);
    assert_eq!(scheduler.flow_after(&action), Flow::Wait);
}

#[test]
fn fixed_edit_draws_green_as_frame_one() {
    let mut scheduler = reactive_red();
    scheduler.handle(Event::Reload, at(1_000, 800, 600));
    scheduler.handle(
        Event::LoadFailed(LoadError::Compile("syntax error".to_string())),
        at(1_500, 800, 600),
    );
    assert_eq!(scheduler.handle(Event::Reload, at(9_000, 800, 600)), Action::Reload);
    let action = scheduler.handle(Event::Loaded(GREEN), at(9_500, 800, 600));
    assert_eq!(
        action,
        Action::Draw(Uniforms { width: 800, height: 600, elapsed_nanos: 9_500, frame: 1 })
    );
    assert_eq!(*scheduler.program(), GREEN);
    assert_eq!(scheduler.frame_counter(), 1);
}

#[test]
fn live_mode_draws_on_every_tick_without_edits() {
    let (mut scheduler, first) = Scheduler::start(Mode::Live, Ok("hue"), 640, 480).unwrap();
    assert_eq!(
        first,
        Action::Draw(Uniforms { width: 640, height: 480, elapsed_nanos: 0, frame: 0 })
    );
    let mut last_frame = 0;
    let mut last_time = 0;
    for turn in 1..=120u64 {
        let now = turn * 16_666_667;
        let action = scheduler.handle(Event::Tick, at(now, 640, 480));
        match action {
            Action::Draw(uniforms) => {
                assert_eq!(uniforms.frame, last_frame + 1);
                assert!(uniforms.elapsed_nanos > last_time);
                last_frame = uniforms.frame;
                last_time = uniforms.elapsed_nanos;
            }
            other => panic!("a tick in live mode drew nothing: {:?}", other),
        }
        assert_eq!(scheduler.flow_after(&action), Flow::Poll);
    }
    assert_eq!(scheduler.frame_counter(), 120);
    assert_eq!(*scheduler.program(), "hue");
}

#[test]
fn resize_draws_once_at_the_new_size() {
    let mut scheduler = reactive_red();
    let action = scheduler.handle(Event::Resized, at(2_000_000, 1024, 768));
    assert_eq!(
        action,
        Action::Draw(Uniforms { width: 1024, height: 768, elapsed_nanos: 2_000_000, frame: 1 })
    );
    assert_eq!(scheduler.frame_counter(), 1);
    assert_eq!(scheduler.handle(Event::Tick, at(2_000_100, 1024, 768)), Action::Nothing);
    assert_eq!(scheduler.handle(Event::Other, at(2_000_200, 1024, 768)), Action::Nothing);
    assert_eq!(scheduler.frame_counter(), 1);
    assert_eq!(*scheduler.program(), RED);
}
