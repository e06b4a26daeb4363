use rgbcal::knob::level_from_raw;
use rgbcal::shared::{frame_rate_or_default, get_frame_rate, SharedState};
use rgbcal::ui::{dispatch, knob_frame_rate, Change, Target, UiState};
use rgbcal::DEFAULT_FRAME_RATE;

#[test]
fn dispatch_by_priority() {
    assert_eq!(dispatch(true, true), Target::Red);
    assert_eq!(dispatch(false, true), Target::Green);
    assert_eq!(dispatch(true, false), Target::Blue);
    assert_eq!(dispatch(false, false), Target::FrameRate);
}

#[test]
fn frame_rate_mapping() {
    assert_eq!(knob_frame_rate(0), 10);
    assert_eq!(knob_frame_rate(7), 80);
    assert_eq!(knob_frame_rate(15), 160);
}

#[test]
fn default_state() {
    let s = UiState::default();
    assert_eq!(s.levels, [15, 15, 15]);
    assert_eq!(s.frame_rate, 100);
}

#[test]
fn same_value_changes_nothing() {
    let mut s = UiState::default();
    assert!(matches!(s.update(true, true, 15), Change::Unchanged));
    assert!(matches!(s.update(false, false, 9), Change::Unchanged));
    assert!(matches!(s.update(false, false, 4), Change::FrameRate(50)));
    assert!(matches!(s.update(false, false, 4), Change::Unchanged));
    assert!(matches!(s.update(false, true, 4), Change::Levels([15, 4, 15])));
    assert!(matches!(s.update(false, true, 4), Change::Unchanged));
    assert_eq!(s.levels, [15, 4, 15]);
    assert_eq!(s.frame_rate, 50);
}

#[test]
fn button_a_sets_blue() {
    let mut s = UiState::default();
    assert!(matches!(s.update(true, false, 0), Change::Levels([15, 15, 0])));
    assert_eq!(s.frame_rate, 100);
}

#[test]
fn knob_high_both_buttons_sets_red() {
    let mut s = UiState::default();
    assert!(matches!(s.update(true, true, 3), Change::Levels([3, 15, 15])));
    assert!(matches!(s.update(false, true, 6), Change::Levels([3, 6, 15])));
    let val = level_from_raw(0x7fff);
    assert!(matches!(s.update(true, true, val), Change::Levels([15, 6, 15])));
    assert_eq!(s.levels, [15, 6, 15]);
    assert!(s.show().contains("\nred: 15\n"));
}

#[test]
fn knob_low_no_buttons_sets_frame_rate() {
    let mut s = UiState::default();
    let val = level_from_raw(0);
    assert!(matches!(s.update(false, false, val), Change::FrameRate(10)));
    assert_eq!(s.frame_rate, 10);
    assert_eq!(s.levels, [15, 15, 15]);
}

#[test]
fn status_text() {
    let mut s = UiState::default();
    assert_eq!(s.show(), "\nred: 15\ngreen: 15\nblue: 15\nframe rate: 100\n");
    s.update(false, true, 0);
    s.update(false, false, 15);
    assert_eq!(s.show(), "\nred: 15\ngreen: 0\nblue: 15\nframe rate: 160\n");
}

#[test]
fn frame_rate_read_or_fallback() {
    assert_eq!(frame_rate_or_default(Some(40)), 40);
    assert_eq!(frame_rate_or_default(None), DEFAULT_FRAME_RATE);
    let shared = SharedState::new();
    assert_eq!(*shared.levels.try_lock().unwrap(), [15, 15, 15]);
    assert_eq!(get_frame_rate(&shared), DEFAULT_FRAME_RATE);
    *shared.frame_rate.try_lock().unwrap() = 40;
    assert_eq!(get_frame_rate(&shared), 40);
    let guard = shared.frame_rate.try_lock().unwrap();
    assert_eq!(get_frame_rate(&shared), DEFAULT_FRAME_RATE);
    drop(guard);
    assert_eq!(get_frame_rate(&shared), 40);
}
