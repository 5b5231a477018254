use sysnotify::dbus::network_manager::state_changed_message;
use sysnotify::network::{classify_line, notification_for_line, send_notification, NetworkStatus};

#[test]
fn lines_are_classified() {
    assert_eq!(classify_line("wlp3s0: disconnected"), Some(NetworkStatus::Disconnected));
    assert_eq!(classify_line("wlp3s0: connected"), Some(NetworkStatus::Connected));
    assert_eq!(classify_line("Connectivity is now 'full'"), None);
    assert_eq!(classify_line(""), None);
}

#[test]
fn disconnected_takes_precedence() {
    assert_eq!(
        classify_line("'Wired' connected; wlp3s0: disconnected"),
        Some(NetworkStatus::Disconnected)
    );
}

#[test]
fn line_notifications() {
    let n = notification_for_line("eth0: disconnected").unwrap();
    assert_eq!(n.id, Some(9998));
    assert_eq!(n.summary, "Network Status");
    assert_eq!(n.body, "Disconnected from the internet");
    assert_eq!(n.icon, "");
    let n = notification_for_line("eth0: connected (local only)").unwrap();
    assert_eq!(n.body, "Connected to the internet");
    assert!(notification_for_line("eth0: unavailable").is_none());
}

#[test]
fn network_notice_fields() {
    let n = send_notification("S", "B");
    assert_eq!((n.id, n.summary.as_str(), n.body.as_str(), n.icon.as_str()), (Some(9998), "S", "B", ""));
}

#[test]
fn state_change_line() {
    assert_eq!(state_changed_message(70), "StateChanged received: state=70");
    assert_eq!(state_changed_message(0), "StateChanged received: state=0");
}

#[test]
fn disconnected_lines_mention_connected() {
    for line in ["x: disconnected", "disconnected", "disconnected (firmware missing)"] {
        assert!(sysnotify::text::text_contains(line, "connected"));
        assert_eq!(classify_line(line), Some(NetworkStatus::Disconnected));
    }
}
