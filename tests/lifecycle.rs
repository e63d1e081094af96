use watchfolio::lifecycle::{on_close_requested, CloseAction};
use watchfolio::settings::{get_keep_running_in_background, SystemSettings};

#[test]
fn close_with_flag_true_hides_window_and_keeps_flag() {
    let s = SystemSettings::new();
    assert_eq!(on_close_requested(Some(&s), true), CloseAction::HideWindow);
    assert!(get_keep_running_in_background(&s));
}

#[test]
fn close_with_flag_false_lets_window_close() {
    let mut s = SystemSettings::new();
    s.set(false);
    assert_eq!(on_close_requested(Some(&s), true), CloseAction::AllowClose);
}

#[test]
fn close_before_settings_exist_hides_window() {
    assert_eq!(on_close_requested(None, true), CloseAction::HideWindow);
}

#[test]
fn close_without_main_window_is_allowed() {
    let s = SystemSettings::new();
    assert_eq!(on_close_requested(Some(&s), false), CloseAction::AllowClose);
}
