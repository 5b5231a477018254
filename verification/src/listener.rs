//! The stand-alone device listener: it reports every device added, removed
//! or changed by its device node name, and polls the udev socket for events.

use vstd::prelude::*;
use vstd::string::*;

use crate::device::{append_text_or, event_kind_name, kind_name, text_or, DeviceEvent, EventKind, PropertyValue};
use crate::notification::{notice, NotificationRequest};
use crate::text::{append_decimal, decimal};
use crate::udev::handler::{disk_notification, ActionView, HandledEvent, HandlerAction};

verus! {

/// The device node name of an event: the `DEVNAME` property, empty where
/// it is absent.
pub open spec fn node_name(e: DeviceEvent) -> Seq<char> {
    match e.dev_name {
        PropertyValue::Text(s) => s@,
        _ => Seq::empty(),
    }
}

/// The events that the listener accepts: an addition, removal or change
/// must not carry a `DEVNAME` that is not valid UTF-8.
pub open spec fn listener_accepts(e: DeviceEvent) -> bool {
    (e.kind == EventKind::Add || e.kind == EventKind::Remove || e.kind == EventKind::Change)
        ==> !(e.dev_name is NotUtf8)
}

/// What the listener shows for an event: additions, removals and changes,
/// naming the device node.
pub open spec fn listener_action(e: DeviceEvent) -> ActionView {
    let name = node_name(e);
    match e.kind {
        EventKind::Add => ActionView::Notify(
            notice(None, "Device Added"@, "A device was added: "@ + name, "device"@),
        ),
        EventKind::Remove => ActionView::Notify(
            notice(None, "Device Removed"@, "A device was removed: "@ + name, "device"@),
        ),
        EventKind::Change => ActionView::Notify(
            notice(None, "Device Changed"@, "A device was changed: "@ + name, "device"@),
        ),
        _ => ActionView::Nothing,
    }
}

/// The line the listener logs for each event, all on one line.
pub open spec fn listener_log(e: DeviceEvent) -> Seq<char> {
    decimal(e.sequence_number as nat) + ": "@ + kind_name(e.kind) + " "@ + text_or(
        e.syspath,
        "---"@,
    ) + " (subsystem="@ + text_or(e.subsystem, Seq::empty()) + ", sysname="@ + text_or(
        e.sysname,
        Seq::empty(),
    ) + ", devtype="@ + text_or(e.devtype, Seq::empty()) + ")"@
}

/// The listener words its notifications as the disk handler does: same
/// summary, icon and id, and the same opening of the body, which then names
/// the device node where the handler names vendor and model.
pub proof fn lemma_listener_wording_matches_disk(e: DeviceEvent)
    requires
        e.kind == EventKind::Add || e.kind == EventKind::Remove || e.kind == EventKind::Change,
    ensures
        listener_action(e) matches ActionView::Notify(n) && {
            let d = disk_notification(e);
            &&& n.summary == d.summary
            &&& n.icon == d.icon
            &&& n.id == d.id
            &&& n.body.subrange(0, n.body.len() - node_name(e).len()) == d.body.subrange(
                0,
                d.body.len() - crate::udev::handler::device_name(e.vendor, e.model).len(),
            )
        },
{
    let name = node_name(e);
    let dname = crate::udev::handler::device_name(e.vendor, e.model);
    let lead: Seq<char> = if e.kind == EventKind::Add {
        "A device was added: "@
    } else if e.kind == EventKind::Remove {
        "A device was removed: "@
    } else {
        "A device was changed: "@
    };
    assert((lead + name).subrange(0, lead.len() as int) =~= lead);
    assert((lead + dname).subrange(0, lead.len() as int) =~= lead);
}

/// The listener notifies exactly for additions, removals and changes, each
/// under its own summary with the `device` icon and no id; binds, unbinds
/// and unknown events yield no action.
pub proof fn lemma_listener_notifies_only_add_remove_change(e: DeviceEvent)
    ensures
        listener_action(e) is Notify <==> (e.kind == EventKind::Add || e.kind == EventKind::Remove
            || e.kind == EventKind::Change),
        !(e.kind == EventKind::Add || e.kind == EventKind::Remove || e.kind == EventKind::Change)
            ==> listener_action(e) == ActionView::Nothing,
        listener_action(e) matches ActionView::Notify(n) ==> {
            &&& n.id == None::<u32>
            &&& n.icon == "device"@
            &&& (n.summary == "Device Added"@ <==> e.kind == EventKind::Add)
            &&& (n.summary == "Device Removed"@ <==> e.kind == EventKind::Remove)
            &&& (n.summary == "Device Changed"@ <==> e.kind == EventKind::Change)
        },
{
    reveal_strlit("Device Added");
    reveal_strlit("Device Removed");
    reveal_strlit("Device Changed");
    assert("Device Added"@[7] != "Device Removed"@[7]);
    assert("Device Added"@[7] != "Device Changed"@[7]);
    assert("Device Removed"@[7] != "Device Changed"@[7]);
}

/// Whether the listener accepts `event` (see [`listener_accepts`]).
pub fn listener_accepts_event(event: &DeviceEvent) -> (b: bool)
    ensures
        b == listener_accepts(*event),
{
    match event.kind {
        EventKind::Add | EventKind::Remove | EventKind::Change => !matches!(event.dev_name, PropertyValue::NotUtf8),
        _ => true,
    }
}

fn node_notice(summary: &str, lead: &str, event: &DeviceEvent) -> (n: NotificationRequest)
    ensures
        n@ == notice(None, summary@, lead@ + node_name(*event), "device"@),
{
    let mut body = String::from_str(lead);
    if let PropertyValue::Text(s) = &event.dev_name {
        body.append(s.as_str());
    } else {
        assert(body@ =~= lead@ + node_name(*event));
    }
    NotificationRequest::new(None, String::from_str(summary), body, String::from_str("device"))
}

/// Handles one event: the line to log, and what to show.
pub fn handle_event(event: &DeviceEvent) -> (r: HandledEvent)
    requires
        listener_accepts(*event),
    ensures
        r@ == (listener_log(*event), listener_action(*event)),
        r.action is Notify <==> (event.kind == EventKind::Add || event.kind == EventKind::Remove
            || event.kind == EventKind::Change),
{
    proof {
        lemma_listener_notifies_only_add_remove_change(*event);
    }
    let mut log = String::new();
    append_decimal(&mut log, event.sequence_number);
    log.append(": ");
    log.append(event_kind_name(event.kind));
    log.append(" ");
    append_text_or(&mut log, &event.syspath, "---");
    log.append(" (subsystem=");
    append_text_or(&mut log, &event.subsystem, "");
    log.append(", sysname=");
    append_text_or(&mut log, &event.sysname, "");
    log.append(", devtype=");
    append_text_or(&mut log, &event.devtype, "");
    log.append(")");
    proof {
        reveal_strlit("");
        assert(log@ =~= listener_log(*event));
    }
    let action = match event.kind {
        EventKind::Add => HandlerAction::Notify(node_notice("Device Added", "A device was added: ", event)),
        EventKind::Remove => HandlerAction::Notify(
            node_notice("Device Removed", "A device was removed: ", event),
        ),
        EventKind::Change => HandlerAction::Notify(
            node_notice("Device Changed", "A device was changed: ", event),
        ),
        _ => HandlerAction::Nothing,
    };
    HandledEvent { log, action }
}

/// The next step of the polling loop.
#[derive(Debug, PartialEq, Eq, Structural)]
pub enum PollStep {
    /// Waiting on the socket failed: stop with the system's error.
    Fail,
    /// No event could be read: sleep this many milliseconds and poll again.
    Sleep(u64),
    /// Handle the event that was read, then poll again.
    Handle,
}

/// The step after waiting on the socket returned `wait_result` and, when
/// that did not fail, reading an event did or did not yield one.
pub fn poll_step(wait_result: i32, event_read: bool) -> (s: PollStep)
    ensures
        wait_result < 0 ==> s == PollStep::Fail,
        wait_result >= 0 && !event_read ==> s == PollStep::Sleep(10),
        wait_result >= 0 && event_read ==> s == PollStep::Handle,
{
    if wait_result < 0 {
        PollStep::Fail
    } else if !event_read {
        PollStep::Sleep(10)
    } else {
        PollStep::Handle
    }
}

} // verus!
