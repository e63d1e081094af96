use watchfolio::settings::{
    get_keep_running_in_background, set_keep_running_in_background, should_keep_running,
    SystemSettings,
};

#[test]
fn get_after_set_returns_value_written() {
    let mut s = SystemSettings::new();
    for v in [false, true, true, false] {
        s.set(v);
        assert_eq!(s.get(), v);
    }
}

#[test]
fn command_handlers_write_and_read_flag() {
    let mut s = SystemSettings::new();
    assert_eq!(set_keep_running_in_background(&mut s, false), Ok(()));
    assert!(!get_keep_running_in_background(&s));
    assert_eq!(set_keep_running_in_background(&mut s, true), Ok(()));
    assert!(get_keep_running_in_background(&s));
}

#[test]
fn flag_defaults_to_true_before_any_set() {
    let s = SystemSettings::new();
    assert!(s.get());
    assert!(SystemSettings::default().get());
    assert!(should_keep_running(None));
}

#[test]
fn should_keep_running_reads_stored_flag() {
    let mut s = SystemSettings::new();
    s.set(false);
    assert!(!should_keep_running(Some(&s)));
    s.set(true);
    assert!(should_keep_running(Some(&s)));
}
