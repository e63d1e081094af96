use watchfolio::export::{export_failure_message, ExportOptions};
use watchfolio::launch::was_autostarted;

#[test]
fn autostart_flag_is_detected() {
    let args = vec!["watchfolio".to_string(), "--autostarted".to_string()];
    assert!(was_autostarted(&args));
}

#[test]
fn plain_launch_is_not_autostart() {
    assert!(!was_autostarted(&vec!["watchfolio".to_string(), "--autostart".to_string()]));
    assert!(!was_autostarted(&Vec::new()));
}

#[test]
fn export_failure_message_carries_reason() {
    let o = ExportOptions { path: "/tmp/x.json".to_string(), format: "json".to_string(), data: "{}".to_string() };
    assert_eq!(o.clone(), o);
    assert_eq!(export_failure_message("denied"), "Failed to export data: denied");
}
