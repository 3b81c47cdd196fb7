use session_supervisor::reconciler::{
    check_external_login, confirm_login, read_artifact, reconcile, StatusArtifact,
    STALENESS_WINDOW_MILLIS,
};
use session_supervisor::store::{BrowserSessionStatus, SessionStore};

const NOW: u64 = 1_700_000_000_000;

fn record(is_logged_in: bool, timestamp_millis: u64) -> String {
    format!(
        "{{\n  \"isLoggedIn\": {},\n  \"timestampMillis\": {},\n  \"url\": \"https://example.com/\",\n  \"debug\": {{ \"hasSessionCookie\": true }}\n}}",
        is_logged_in, timestamp_millis
    )
}

fn launched_store() -> SessionStore {
    let mut store = SessionStore::new();
    store.set_browser_status(BrowserSessionStatus::launched());
    store
}

#[test]
fn fresh_login_is_confirmed() {
    let mut store = launched_store();
    let text = record(true, NOW - 10000);
    assert!(check_external_login(&mut store, Some(&text), NOW));
    assert!(store.get_browser_status().externally_logged_in);
}

#[test]
fn stale_login_is_rejected() {
    let mut store = launched_store();
    let text = record(true, NOW - 40000);
    assert!(!check_external_login(&mut store, Some(&text), NOW));
    assert!(!store.get_browser_status().externally_logged_in);
}

#[test]
fn missing_record_answers_false() {
    let mut store = launched_store();
    assert!(!check_external_login(&mut store, None, NOW));
    assert_eq!(store.get_browser_status(), BrowserSessionStatus::launched());
}

#[test]
fn missing_record_leaves_earlier_flag_untouched() {
    let mut store = launched_store();
    let text = record(true, NOW - 10000);
    assert!(check_external_login(&mut store, Some(&text), NOW));
    assert!(!check_external_login(&mut store, None, NOW));
    assert!(store.get_browser_status().externally_logged_in);
}

#[test]
fn unparseable_record_answers_false_and_writes_nothing() {
    let mut store = launched_store();
    store.record_external_login(true);
    let whole = record(true, NOW - 10000);
    let truncated = &whole[..whole.len() / 2];
    assert!(!check_external_login(&mut store, Some(truncated), NOW));
    assert!(!check_external_login(&mut store, Some(""), NOW));
    assert!(!check_external_login(&mut store, Some("not json"), NOW));
    assert!(store.get_browser_status().externally_logged_in);
}

#[test]
fn trailing_garbage_makes_record_unparseable() {
    let text = format!("{} x", record(true, NOW));
    assert_eq!(read_artifact(&text), None);
}

#[test]
fn stale_record_clears_earlier_flag() {
    let mut store = launched_store();
    let fresh = record(true, NOW - 10000);
    assert!(check_external_login(&mut store, Some(&fresh), NOW));
    assert!(!check_external_login(&mut store, Some(&fresh), NOW + 30000));
    assert!(!store.get_browser_status().externally_logged_in);
}

#[test]
fn logged_out_record_answers_false() {
    let mut store = launched_store();
    store.record_external_login(true);
    let text = record(false, NOW - 1000);
    assert!(!check_external_login(&mut store, Some(&text), NOW));
    assert!(!store.get_browser_status().externally_logged_in);
}

#[test]
fn poll_without_browser_status_answers_and_writes_nothing() {
    let mut store = SessionStore::new();
    let text = record(true, NOW - 10000);
    assert!(check_external_login(&mut store, Some(&text), NOW));
    assert_eq!(store.get_browser_status(), BrowserSessionStatus::uninitialized());
    store.set_browser_status(BrowserSessionStatus::launched());
    assert!(!store.get_browser_status().externally_logged_in);
}

#[test]
fn poll_keeps_user_id_and_other_status_fields() {
    let mut store = SessionStore::new();
    store.set_user_id(Some("U123".to_string()));
    store.set_browser_status(BrowserSessionStatus::launch_failed("boom".to_string()));
    let text = record(true, NOW);
    assert!(check_external_login(&mut store, Some(&text), NOW));
    assert_eq!(store.get_user_id(), Some("U123".to_string()));
    assert_eq!(store.get_browser_status(), BrowserSessionStatus {
        initialized: false,
        externally_logged_in: true,
        error: Some("boom".to_string()),
    });
}

#[test]
fn staleness_window_is_thirty_seconds() {
    assert_eq!(STALENESS_WINDOW_MILLIS, 30000);
}

#[test]
fn staleness_boundary_is_exclusive() {
    let at = |age: u64| confirm_login(StatusArtifact { is_logged_in: true, timestamp_millis: NOW - age }, NOW);
    assert!(at(0));
    assert!(at(1));
    assert!(at(29999));
    assert!(!at(30000));
    assert!(!at(30001));
    assert!(!at(NOW));
}

#[test]
fn record_from_the_future_is_not_trusted() {
    assert!(!confirm_login(StatusArtifact { is_logged_in: true, timestamp_millis: NOW + 1 }, NOW));
    assert!(!confirm_login(StatusArtifact { is_logged_in: true, timestamp_millis: u64::MAX }, 0));
    let mut store = launched_store();
    let text = record(true, NOW + 5000);
    assert!(!check_external_login(&mut store, Some(&text), NOW));
}

#[test]
fn logged_out_record_is_never_confirmed() {
    assert!(!confirm_login(StatusArtifact { is_logged_in: false, timestamp_millis: NOW }, NOW));
}

#[test]
fn read_artifact_extracts_both_fields() {
    assert_eq!(
        read_artifact(&record(true, 1234567890123)),
        Some(StatusArtifact { is_logged_in: true, timestamp_millis: 1234567890123 })
    );
    assert_eq!(
        read_artifact(&record(false, 7)),
        Some(StatusArtifact { is_logged_in: false, timestamp_millis: 7 })
    );
    assert_eq!(
        read_artifact("{\"timestampMillis\": 18446744073709551615, \"isLoggedIn\": true}"),
        Some(StatusArtifact { is_logged_in: true, timestamp_millis: u64::MAX })
    );
}

#[test]
fn read_artifact_rejects_missing_fields() {
    assert_eq!(read_artifact("{}"), None);
    assert_eq!(read_artifact("{\"isLoggedIn\": true}"), None);
    assert_eq!(read_artifact("{\"isLoggedIn\": false}"), None);
    assert_eq!(read_artifact("{\"timestampMillis\": 5}"), None);
    assert_eq!(read_artifact("{\"isLoggedIn\": null, \"timestampMillis\": 5}"), None);
    assert_eq!(read_artifact("{\"isLoggedIn\": true, \"timestampMillis\": null}"), None);
}

#[test]
fn read_artifact_rejects_fields_of_wrong_type() {
    assert_eq!(read_artifact("{\"isLoggedIn\": \"true\", \"timestampMillis\": \"5\"}"), None);
    assert_eq!(read_artifact("{\"isLoggedIn\": \"true\", \"timestampMillis\": 5}"), None);
    assert_eq!(read_artifact("{\"isLoggedIn\": 1, \"timestampMillis\": 5}"), None);
    assert_eq!(read_artifact("{\"isLoggedIn\": true, \"timestampMillis\": \"5\"}"), None);
    assert_eq!(read_artifact("{\"isLoggedIn\": true, \"timestampMillis\": -5}"), None);
    assert_eq!(read_artifact("{\"isLoggedIn\": true, \"timestampMillis\": 5.5}"), None);
    assert_eq!(read_artifact("{\"isLoggedIn\": true, \"timestampMillis\": 18446744073709551616}"), None);
}

#[test]
fn read_artifact_rejects_json_that_is_no_object() {
    assert_eq!(read_artifact("null"), None);
    assert_eq!(read_artifact("[true, 5]"), None);
    assert_eq!(read_artifact("true"), None);
    assert_eq!(read_artifact("42"), None);
}

#[test]
fn read_artifact_reads_members_by_their_own_names() {
    assert_eq!(
        read_artifact("{\"isLoggedIn\": false, \"loggedIn\": true, \"timestamp\": 9, \"timestampMillis\": 3}"),
        Some(StatusArtifact { is_logged_in: false, timestamp_millis: 3 })
    );
}

#[test]
fn record_without_timestamp_answers_false_at_every_time() {
    let mut store = launched_store();
    for now in [0, 1, 29999, 30000, NOW, u64::MAX] {
        assert!(!check_external_login(&mut store, Some("{\"isLoggedIn\": true}"), now));
        assert!(!check_external_login(
            &mut store,
            Some("{\"isLoggedIn\": true, \"timestampMillis\": \"0\"}"),
            now
        ));
    }
    assert_eq!(store.get_browser_status(), BrowserSessionStatus::launched());
}

#[test]
fn record_without_login_flag_answers_false() {
    let mut store = launched_store();
    let text = format!("{{\"timestampMillis\": {}}}", NOW);
    assert!(!check_external_login(&mut store, Some(&text), NOW));
    let text = format!("{{\"isLoggedIn\": \"true\", \"timestampMillis\": {}}}", NOW);
    assert!(!check_external_login(&mut store, Some(&text), NOW));
}

#[test]
fn incomplete_record_writes_nothing() {
    let mut store = launched_store();
    store.record_external_login(true);
    assert!(!check_external_login(&mut store, Some("{\"isLoggedIn\": true}"), 10));
    assert!(!check_external_login(&mut store, Some("{\"timestampMillis\": 5}"), 10));
    assert!(!check_external_login(&mut store, Some("{}"), 10));
    assert!(store.get_browser_status().externally_logged_in);
    assert!(!check_external_login(&mut store, Some(&record(false, NOW)), NOW));
    assert!(!store.get_browser_status().externally_logged_in);
}

#[test]
fn record_with_timestamp_zero_is_judged_by_its_age() {
    let mut store = launched_store();
    let text = record(true, 0);
    assert!(check_external_login(&mut store, Some(&text), 29999));
    assert!(!check_external_login(&mut store, Some(&text), 30000));
}

#[test]
fn reconcile_with_record_writes_the_decision() {
    let mut store = launched_store();
    let found = StatusArtifact { is_logged_in: true, timestamp_millis: NOW - 5 };
    assert!(reconcile(&mut store, Some(found), NOW));
    assert!(store.get_browser_status().externally_logged_in);
    assert!(!reconcile(&mut store, None, NOW));
    assert!(store.get_browser_status().externally_logged_in);
    assert!(!reconcile(&mut store, Some(found), NOW + 30000));
    assert!(!store.get_browser_status().externally_logged_in);
}
