use watchfolio::updater::{report_check, FoundUpdate, Notification, UpdateInfo};

fn found(version: &str) -> FoundUpdate {
    FoundUpdate { version: version.to_string(), date: None, body: None }
}

#[test]
fn newer_version_non_silent_reports_available() {
    let r = report_check(false, "1.5.0".to_string(), Some(found("2.0.0")));
    let expected = Notification::UpdateAvailable(UpdateInfo {
        version: "2.0.0".to_string(),
        current_version: "1.5.0".to_string(),
        date: None,
        body: None,
    });
    assert_eq!(r, Some(expected));
    assert_eq!(r.unwrap().event_name(), "update-available");
}

#[test]
fn available_update_carries_date_and_notes() {
    let u = FoundUpdate {
        version: "2.1.0".to_string(),
        date: Some("2024-05-01 00:00:00 +00:00:00".to_string()),
        body: Some("Fixes".to_string()),
    };
    match report_check(false, "2.0.0".to_string(), Some(u)) {
        Some(Notification::UpdateAvailable(info)) => {
            assert_eq!(info.version, "2.1.0");
            assert_eq!(info.current_version, "2.0.0");
            assert_eq!(info.date.as_deref(), Some("2024-05-01 00:00:00 +00:00:00"));
            assert_eq!(info.body.as_deref(), Some("Fixes"));
        }
        other => panic!("unexpected report {:?}", other),
    }
}

#[test]
fn same_version_non_silent_reports_not_available() {
    let r = report_check(false, "1.5.0".to_string(), None);
    assert_eq!(r, Some(Notification::UpdateNotAvailable));
    assert_eq!(r.unwrap().event_name(), "update-not-available");
}

#[test]
fn silent_check_reports_nothing() {
    assert_eq!(report_check(true, "1.5.0".to_string(), None), None);
    assert_eq!(report_check(true, "1.5.0".to_string(), Some(found("2.0.0"))), None);
}

#[test]
fn non_silent_check_reports_exactly_one_kind() {
    for f in [None, Some(found("3.0.0"))] {
        let had_update = f.is_some();
        let r = report_check(false, "1.0.0".to_string(), f).expect("a report");
        assert_eq!(matches!(r, Notification::UpdateAvailable(_)), had_update);
        assert_eq!(matches!(r, Notification::UpdateNotAvailable), !had_update);
    }
}
