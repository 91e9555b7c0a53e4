use ai_assistant::app_state::AppState;
use ai_assistant::tray::{TrayClickState, DOUBLE_CLICK_WINDOW_NANOS};

const MS: u64 = 1_000_000;

#[test]
fn double_click_window_is_300_ms() {
    assert_eq!(DOUBLE_CLICK_WINDOW_NANOS, 300 * MS);
}

#[test]
fn two_quick_clicks_are_single_then_double() {
    let mut clicks = TrayClickState::new(0);
    assert!(!clicks.register_click(1_000 * MS));
    assert!(clicks.register_click(1_200 * MS));
    assert_eq!(clicks.last_click, 1_200 * MS);
}

#[test]
fn three_clicks_400_ms_apart_are_all_single() {
    let mut clicks = TrayClickState::new(0);
    assert!(!clicks.register_click(400 * MS));
    assert!(!clicks.register_click(800 * MS));
    assert!(!clicks.register_click(1_200 * MS));
}

#[test]
fn click_sequences_are_classified_in_order() {
    let mut clicks = TrayClickState::new(0);
    let times = vec![1_000 * MS, 1_200 * MS, 1_400 * MS, 2_000 * MS];
    assert_eq!(clicks.register_clicks(&times), vec![false, true, true, false]);
    assert_eq!(clicks.last_click, 2_000 * MS);

    let mut idle = TrayClickState::new(7);
    assert_eq!(idle.register_clicks(&Vec::new()), Vec::<bool>::new());
    assert_eq!(idle.last_click, 7);
}

#[test]
fn exactly_300_ms_is_a_single_click() {
    let mut clicks = TrayClickState::new(5 * MS);
    assert!(!clicks.register_click(305 * MS));
}

#[test]
fn one_nanosecond_short_of_300_ms_is_a_double_click() {
    let mut clicks = TrayClickState::new(5 * MS);
    assert!(clicks.register_click(305 * MS - 1));
}

#[test]
fn a_click_at_the_same_instant_is_a_double_click() {
    let mut clicks = TrayClickState::new(9);
    assert!(clicks.register_click(9));
}

#[test]
fn a_clock_that_runs_backwards_counts_as_no_time() {
    let mut clicks = TrayClickState::new(10_000 * MS);
    assert!(clicks.register_click(1_000 * MS));
    assert_eq!(clicks.last_click, 1_000 * MS);
}

#[test]
fn the_last_click_is_updated_whatever_the_outcome() {
    let mut clicks = TrayClickState::new(0);
    assert!(clicks.register_click(100 * MS));
    assert_eq!(clicks.last_click, 100 * MS);
    assert!(clicks.register_click(350 * MS));
    assert_eq!(clicks.last_click, 350 * MS);
    assert!(!clicks.register_click(650 * MS));
    assert_eq!(clicks.last_click, 650 * MS);
}

#[test]
fn startup_counts_as_the_last_click() {
    let mut state = AppState::new(50 * MS);
    assert_eq!(state.tray.last_click, 50 * MS);
    let reading = state.record_tray_click(100 * MS);
    assert!(reading.double_click);
}

#[test]
fn large_times_do_not_overflow() {
    let mut clicks = TrayClickState::new(0);
    assert!(!clicks.register_click(u64::MAX));
    assert!(clicks.register_click(u64::MAX));
    assert!(clicks.register_click(0));
}
