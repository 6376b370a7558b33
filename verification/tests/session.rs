use pomo::phase::Notification;
use pomo::phase::Status;
use pomo::phase::BREAKING_SECS;
use pomo::phase::WORKING_SECS;
use pomo::session::Pomo;

#[test]
fn new_session_is_fresh() {
    let p = Pomo::new();
    assert!(!p.paused);
    assert_eq!(p.status, Status::Working(0, WORKING_SECS));
    assert_eq!(Pomo::default(), p);
}

#[test]
fn advance_is_inert_while_paused() {
    let mut p = Pomo::new();
    p.toggle_pause();
    let before = p;
    for elapsed in [0u64, 1, 5, 1500, 1_000_000] {
        let note = p.elapsed(elapsed);
        assert_eq!(p, before);
        assert_eq!(note, None);
    }
}

#[test]
fn toggle_pause_twice_restores_the_flag() {
    let mut p = Pomo::new();
    assert!(!p.paused);
    p.toggle_pause();
    assert!(p.paused);
    assert_eq!(p.status, Status::Working(0, WORKING_SECS));
    p.toggle_pause();
    assert!(!p.paused);
    assert_eq!(p, Pomo::new());
}

#[test]
fn formats_remaining_as_zero_padded_mm_ss() {
    let p = Pomo { paused: false, status: Status::Working(0, 90) };
    assert_eq!(p.format_status(), "Working(round 1): remaining 01:30".to_string());
}

#[test]
fn format_shows_one_based_round_and_paused_marker() {
    let p = Pomo { paused: false, status: Status::Resting(2, 5) };
    assert_eq!(p.format_status(), "Resting(round 3): remaining 00:05".to_string());

    let p = Pomo { paused: true, status: Status::Napping(899) };
    assert_eq!(p.format_status(), "Napping: remaining 14:59 [paused]".to_string());
}

#[test]
fn shortcuts_label_follows_pause_flag() {
    let mut p = Pomo::new();
    assert_eq!(p.shortcuts(), "Tip: <space> => pause, <r> => reset".to_string());
    p.toggle_pause();
    assert_eq!(p.shortcuts(), "Tip: <space> => resume, <r> => reset".to_string());
}

#[test]
fn reset_then_full_working_interval_ends_in_rest() {
    // End to end: a fresh session advanced by the whole working interval.
    let mut p = Pomo::new();
    let note = p.elapsed(1500);
    assert_eq!(p.status, Status::Resting(0, BREAKING_SECS));
    assert_eq!(p.format_status(), "Resting(round 1): remaining 05:00".to_string());
    let note = note.expect("crossing the boundary must alert");
    assert_eq!(note, Notification::TakeBreak);
    assert_eq!(note.title(), "pomodoro".to_string());
    assert_eq!(note.body(), "Time to take a break".to_string());
}
