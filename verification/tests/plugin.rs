use pomo::clock::format_clock;
use pomo::clock::ClockStamp;
use pomo::phase::Notification;
use pomo::phase::Status;
use pomo::phase::BREAKING_SECS;
use pomo::phase::WORKING_SECS;
use pomo::session::Pomo;
use pomo::state::InputEvent;
use pomo::state::State;

fn sample_clock() -> ClockStamp {
    ClockStamp { year: 2024, month: 1, day: 2, hour: 8, minute: 5, weekday: 1 }
}

#[test]
fn clock_line_formats_fixed_fields() {
    assert_eq!(format_clock(sample_clock()), "08:05 2024-01-02 Tue".to_string());
    let c = ClockStamp { year: 1999, month: 12, day: 31, hour: 23, minute: 59, weekday: 4 };
    assert_eq!(format_clock(c), "23:59 1999-12-31 Fri".to_string());
}

#[test]
fn ticks_advance_only_while_visible() {
    let mut st = State::new();
    let acts = st.update(InputEvent::Tick(10));
    assert!(!acts.rearm_timer);
    assert_eq!(st.pomo, Pomo::new());

    let acts = st.update(InputEvent::Shown(None));
    assert!(st.active);
    assert!(acts.rearm_timer);

    let acts = st.update(InputEvent::Tick(10));
    assert!(acts.rearm_timer);
    assert_eq!(acts.notify, None);
    assert_eq!(st.pomo.status, Status::Working(0, WORKING_SECS - 10));
}

#[test]
fn hiding_saves_and_stops_ticks() {
    let mut st = State::new();
    st.update(InputEvent::Shown(None));
    st.update(InputEvent::Tick(100));
    let acts = st.update(InputEvent::Hidden);
    assert!(!st.active);
    assert!(!acts.rearm_timer);
    let saved = acts.save.expect("hiding must hand back text to persist");
    assert_eq!(saved, "0w01400".to_string());

    // Coming back restores the very session that was saved.
    let mut later = State::new();
    later.update(InputEvent::Shown(Some(saved)));
    assert_eq!(later.pomo, st.pomo);
}

#[test]
fn shown_with_corrupt_storage_falls_back_to_fresh() {
    let mut st = State::new();
    st.update(InputEvent::Shown(Some("not a session".to_string())));
    assert_eq!(st.pomo, Pomo::new());
    assert!(st.active);
}

#[test]
fn reset_and_pause_keys() {
    let mut st = State::new();
    st.update(InputEvent::Shown(None));
    st.update(InputEvent::Tick(25));
    let acts = st.update(InputEvent::PauseKey);
    assert!(st.pomo.paused);
    assert_eq!(acts.save, None);
    let acts = st.update(InputEvent::ResetKey);
    assert_eq!(st.pomo, Pomo::new());
    assert!(!acts.rearm_timer);
    assert!(st.active, "reset does not touch visibility");
}

#[test]
fn tick_crossing_a_boundary_reports_the_alert() {
    let mut st = State::new();
    st.update(InputEvent::Shown(None));
    let acts = st.update(InputEvent::Tick(WORKING_SECS));
    assert_eq!(acts.notify, Some(Notification::TakeBreak));
    assert_eq!(st.pomo.status, Status::Resting(0, BREAKING_SECS));
}

#[test]
fn render_hint_line_only_with_room() {
    let mut st = State::new();
    st.update(InputEvent::Shown(None));
    let lines = st.render_lines(1, sample_clock());
    assert_eq!(lines.len(), 1);
    assert_eq!(
        lines[0],
        "Working(round 1): remaining 25:00 | 08:05 2024-01-02 Tue".to_string()
    );
    let lines = st.render_lines(2, sample_clock());
    assert_eq!(lines.len(), 2);
    assert_eq!(lines[1], "Tip: <space> => pause, <r> => reset".to_string());
}

#[test]
fn ignored_events_change_nothing() {
    let mut st = State::new();
    let acts = st.update(InputEvent::Other);
    assert!(!acts.rearm_timer);
    assert_eq!(acts.save, None);
    assert_eq!(acts.notify, None);
    assert_eq!(st.pomo, Pomo::new());
    assert!(!st.active);
}
