//! Network status from the lines that `nmcli monitor` prints.

use vstd::prelude::*;
use vstd::string::*;

use crate::notification::{notice, optional_view, NotificationRequest, NotificationView};
use crate::text::{has_substring, occurs_at, text_contains};

verus! {

/// The connection state that a monitor line reports.
#[derive(Debug, Clone, Copy, PartialEq, Eq, Structural)]
pub enum NetworkStatus {
    Connected,
    Disconnected,
}

/// The state a monitor line reports: a line that mentions `disconnected`
/// reports a disconnection; otherwise a line that mentions `connected`
/// reports a connection; any other line reports nothing.
pub open spec fn line_status(line: Seq<char>) -> Option<NetworkStatus> {
    if has_substring(line, "disconnected"@) {
        Some(NetworkStatus::Disconnected)
    } else if has_substring(line, "connected"@) {
        Some(NetworkStatus::Connected)
    } else {
        None
    }
}

/// The network notification with `summary` and `body`, under the fixed
/// replacement id 9998.
pub open spec fn network_notice(summary: Seq<char>, body: Seq<char>) -> NotificationView {
    notice(Some(9998u32), summary, body, Seq::empty())
}

/// The notification for a monitor line, if it reports a state.
pub open spec fn line_notification(line: Seq<char>) -> Option<NotificationView> {
    match line_status(line) {
        Some(NetworkStatus::Disconnected) => Some(
            network_notice("Network Status"@, "Disconnected from the internet"@),
        ),
        Some(NetworkStatus::Connected) => Some(
            network_notice("Network Status"@, "Connected to the internet"@),
        ),
        None => None,
    }
}

/// The state that a monitor line reports (see [`line_status`]).
pub fn classify_line(line: &str) -> (s: Option<NetworkStatus>)
    ensures
        s == line_status(line@),
        s is Some <==> has_substring(line@, "connected"@),
        s == Some(NetworkStatus::Disconnected) <==> has_substring(line@, "disconnected"@),
{
    proof {
        lemma_line_status_law(line@);
    }
    if text_contains(line, "disconnected") {
        Some(NetworkStatus::Disconnected)
    } else if text_contains(line, "connected") {
        Some(NetworkStatus::Connected)
    } else {
        None
    }
}

/// The network notification with `summary` and `body`.
pub fn send_notification(summary: &str, body: &str) -> (n: NotificationRequest)
    ensures
        n@ == network_notice(summary@, body@),
{
    NotificationRequest::new(Some(9998), String::from_str(summary), String::from_str(body), String::new())
}

/// The notification to show for a monitor line, if any.
pub fn notification_for_line(line: &str) -> (n: Option<NotificationRequest>)
    ensures
        optional_view(n) == line_notification(line@),
        n is Some <==> has_substring(line@, "connected"@),
{
    proof {
        lemma_line_notification_law(line@);
    }
    match classify_line(line) {
        Some(NetworkStatus::Disconnected) => Some(
            send_notification("Network Status", "Disconnected from the internet"),
        ),
        Some(NetworkStatus::Connected) => Some(
            send_notification("Network Status", "Connected to the internet"),
        ),
        None => None,
    }
}

/// A line that mentions `disconnected` also mentions `connected`, so a
/// disconnection must be looked for first.
pub proof fn lemma_disconnected_mentions_connected(line: Seq<char>)
    requires
        has_substring(line, "disconnected"@),
    ensures
        has_substring(line, "connected"@),
{
    reveal_strlit("disconnected");
    reveal_strlit("connected");
    let i = choose|i: int| occurs_at(line, "disconnected"@, i);
    assert(line.subrange(i + 3, i + 12) =~= "connected"@) by {
        assert forall|k: int| 0 <= k < 9 implies line.subrange(i + 3, i + 12)[k] == "connected"@[k] by {
            assert(line.subrange(i, i + 12)[k + 3] == "disconnected"@[k + 3]);
        }
    }
    assert(occurs_at(line, "connected"@, i + 3));
}

/// A monitor line reports a state exactly when it contains the word
/// `connected`; it reports a disconnection exactly when it contains
/// `disconnected`, and a connection when it contains `connected` but not
/// `disconnected`. A line that merely contains `connect` (as in
/// `connecting` or `connection`) reports nothing.
pub proof fn lemma_line_status_law(line: Seq<char>)
    ensures
        line_status(line) is Some <==> has_substring(line, "connected"@),
        line_status(line) == Some(NetworkStatus::Disconnected) <==> has_substring(
            line,
            "disconnected"@,
        ),
        line_status(line) == Some(NetworkStatus::Connected) <==> (has_substring(line, "connected"@)
            && !has_substring(line, "disconnected"@)),
{
    if has_substring(line, "disconnected"@) {
        lemma_disconnected_mentions_connected(line);
    }
}

/// A monitor line yields a notification exactly when it contains
/// `connected`; every such notification carries the id 9998 and the summary
/// `Network Status`, and says `Connected to the internet` exactly when the
/// line does not contain `disconnected`.
pub proof fn lemma_line_notification_law(line: Seq<char>)
    ensures
        line_notification(line) is Some <==> has_substring(line, "connected"@),
        line_notification(line) matches Some(n) ==> {
            &&& n.id == Some(9998u32)
            &&& n.summary == "Network Status"@
            &&& (n.body == "Connected to the internet"@ <==> !has_substring(line, "disconnected"@))
        },
{
    lemma_line_status_law(line);
    reveal_strlit("Connected to the internet");
    reveal_strlit("Disconnected from the internet");
    assert("Connected to the internet"@[0] != "Disconnected from the internet"@[0]);
}

} // verus!
