//! What a desktop notification carries, as plain values.

use vstd::prelude::*;
use vstd::string::*;

verus! {

/// A notification to be shown: its replacement id (if any), summary line,
/// body text and icon name. Empty texts are the notification server's
/// defaults.
#[derive(Debug)]
pub struct NotificationRequest {
    pub id: Option<u32>,
    pub summary: String,
    pub body: String,
    pub icon: String,
}

/// The mathematical content of a [`NotificationRequest`].
pub struct NotificationView {
    pub id: Option<u32>,
    pub summary: Seq<char>,
    pub body: Seq<char>,
    pub icon: Seq<char>,
}

impl View for NotificationRequest {
    type V = NotificationView;

    open spec fn view(&self) -> NotificationView {
        NotificationView { id: self.id, summary: self.summary@, body: self.body@, icon: self.icon@ }
    }
}

/// The notification with the given fields.
pub open spec fn notice(
    id: Option<u32>,
    summary: Seq<char>,
    body: Seq<char>,
    icon: Seq<char>,
) -> NotificationView {
    NotificationView { id, summary, body, icon }
}

/// The content of an optional notification.
pub open spec fn optional_view(n: Option<NotificationRequest>) -> Option<NotificationView> {
    match n {
        Some(r) => Some(r@),
        None => None,
    }
}

impl NotificationRequest {
    /// A request with the given fields.
    pub fn new(id: Option<u32>, summary: String, body: String, icon: String) -> (r: Self)
        ensures
            r@ == notice(id, summary@, body@, icon@),
    {
        NotificationRequest { id, summary, body, icon }
    }

    /// A request with every field left at its default: no id, empty texts.
    pub fn blank() -> (r: Self)
        ensures
            r@ == notice(None, Seq::empty(), Seq::empty(), Seq::empty()),
    {
        NotificationRequest { id: None, summary: String::new(), body: String::new(), icon: String::new() }
    }
}

} // verus!
