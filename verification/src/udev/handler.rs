//! Decisions on udev events for disks, USB devices and power supplies.

use vstd::prelude::*;
use vstd::string::*;

use crate::device::{
    append_text_or, event_kind_name, kind_name, property_equals, property_is, text_or, DeviceEvent,
    EventKind, PropertyValue,
};
use crate::notification::{notice, optional_view, NotificationRequest, NotificationView};
use crate::text::{append_decimal, decimal, text_equals};

verus! {

/// What to do about one event, besides logging it.
#[derive(Debug)]
pub enum HandlerAction {
    /// Show this notification.
    Notify(NotificationRequest),
    /// Print this warning together with a dump of the event.
    Warn(String),
    /// Nothing.
    Nothing,
}

/// The mathematical content of a [`HandlerAction`].
pub enum ActionView {
    Notify(NotificationView),
    Warn(Seq<char>),
    Nothing,
}

impl View for HandlerAction {
    type V = ActionView;

    open spec fn view(&self) -> ActionView {
        match self {
            HandlerAction::Notify(n) => ActionView::Notify(n@),
            HandlerAction::Warn(w) => ActionView::Warn(w@),
            HandlerAction::Nothing => ActionView::Nothing,
        }
    }
}

/// The outcome of handling one event: the line to log, then the action.
#[derive(Debug)]
pub struct HandledEvent {
    pub log: String,
    pub action: HandlerAction,
}

impl View for HandledEvent {
    type V = (Seq<char>, ActionView);

    open spec fn view(&self) -> (Seq<char>, ActionView) {
        (self.log@, self.action@)
    }
}

/// The device type that selects the handler; a missing (or unreadable)
/// type counts as `unknown`.
pub open spec fn devtype_key(e: DeviceEvent) -> Seq<char> {
    text_or(e.devtype, "unknown"@)
}

/// Name of a device from its vendor and model: both joined by a space, the
/// one that is present, or `Unknown`.
pub open spec fn device_name(vendor: Option<String>, model: Option<String>) -> Seq<char> {
    match (vendor, model) {
        (Some(v), Some(m)) => v@ + " "@ + m@,
        (Some(v), None) => v@,
        (None, Some(m)) => m@,
        (None, None) => "Unknown"@,
    }
}

/// The notification for a disk event: added, removed or changed, naming the
/// device; for any other kind of event a notification with default fields.
pub open spec fn disk_notification(e: DeviceEvent) -> NotificationView {
    let name = device_name(e.vendor, e.model);
    match e.kind {
        EventKind::Add => notice(None, "Device Added"@, "A device was added: "@ + name, "device"@),
        EventKind::Remove => notice(
            None,
            "Device Removed"@,
            "A device was removed: "@ + name,
            "device"@,
        ),
        EventKind::Change => notice(
            None,
            "Device Changed"@,
            "A device was changed: "@ + name,
            "device"@,
        ),
        _ => notice(None, Seq::empty(), Seq::empty(), Seq::empty()),
    }
}

/// The notification for a USB device event: only additions and removals
/// are reported.
pub open spec fn usb_notification(e: DeviceEvent) -> Option<NotificationView> {
    let name = device_name(e.vendor, e.model);
    match e.kind {
        EventKind::Add => Some(
            notice(None, "Device Added"@, "A device was added: "@ + name, "device"@),
        ),
        EventKind::Remove => Some(
            notice(None, "Device Removed"@, "A device was removed: "@ + name, "device"@),
        ),
        _ => None,
    }
}

/// A change event of a mains power supply.
pub open spec fn is_mains_change(e: DeviceEvent) -> bool {
    e.kind == EventKind::Change && property_is(e.supply_type, "Mains"@)
}

/// The notification for a power supply event: a change of the mains
/// supply reports whether the battery is charging (the supply is online)
/// or discharging, under the fixed replacement id 9999.
pub open spec fn power_notification(e: DeviceEvent) -> Option<NotificationView> {
    if is_mains_change(e) {
        let state = if property_is(e.supply_online, "1"@) {
            "charging"@
        } else {
            "discharging"@
        };
        Some(notice(Some(9999u32), "Battery status: "@ + state, Seq::empty(), "battery"@))
    } else {
        None
    }
}

/// The attributes that a power supply event must carry: `type` on a change
/// event, and `online` when that change is of the mains supply.
pub open spec fn power_attributes_present(e: DeviceEvent) -> bool {
    &&& e.kind == EventKind::Change ==> !(e.supply_type is Absent)
    &&& is_mains_change(e) ==> !(e.supply_online is Absent)
}

/// The events that the handler accepts: every event, except a power supply
/// event that lacks an attribute it reads.
pub open spec fn handler_accepts(e: DeviceEvent) -> bool {
    devtype_key(e) == "power_supply"@ ==> power_attributes_present(e)
}

/// The warning printed for an event of unknown device type.
pub open spec fn unknown_devtype_warning() -> Seq<char> {
    "Warning: unknown device type on event: "@
}

/// What the handler does about an accepted event.
pub open spec fn handler_action(e: DeviceEvent) -> ActionView {
    let d = devtype_key(e);
    if d == "disk"@ {
        ActionView::Notify(disk_notification(e))
    } else if d == "usb_device"@ {
        match usb_notification(e) {
            Some(n) => ActionView::Notify(n),
            None => ActionView::Nothing,
        }
    } else if d == "power_supply"@ {
        match power_notification(e) {
            Some(n) => ActionView::Notify(n),
            None => ActionView::Nothing,
        }
    } else if d == "unknown"@ {
        ActionView::Warn(unknown_devtype_warning())
    } else {
        ActionView::Nothing
    }
}

/// The line logged for each event: sequence number and kind, the sysfs
/// path (`---` where unreadable), then subsystem, name and device type,
/// each on a line of its own.
pub open spec fn handler_log(e: DeviceEvent) -> Seq<char> {
    decimal(e.sequence_number as nat) + ": "@ + kind_name(e.kind) + "\n"@ + text_or(
        e.syspath,
        "---"@,
    ) + "\nsubsystem="@ + text_or(e.subsystem, Seq::empty()) + ",\nsysname="@ + text_or(
        e.sysname,
        Seq::empty(),
    ) + ",\ndevtype="@ + text_or(e.devtype, Seq::empty()) + "\n\n"@
}

/// A disk that is also a USB device is reported alike by both handlers:
/// for additions and removals the USB handler shows the disk handler's
/// notification.
pub proof fn lemma_usb_agrees_with_disk(e: DeviceEvent)
    requires
        e.kind == EventKind::Add || e.kind == EventKind::Remove,
    ensures
        usb_notification(e) == Some(disk_notification(e)),
{
}

/// The USB handler reports exactly the additions and removals: an addition
/// as `Device Added`, a removal as `Device Removed`, both with the `device`
/// icon and no id. Changes, binds, unbinds and unknown events show nothing,
/// also when they reach the handler through `handle_event`.
pub proof fn lemma_usb_reports_only_additions_and_removals(e: DeviceEvent)
    ensures
        usb_notification(e) is Some <==> (e.kind == EventKind::Add || e.kind == EventKind::Remove),
        usb_notification(e) matches Some(n) ==> {
            &&& n.id == None::<u32>
            &&& n.icon == "device"@
            &&& (n.summary == "Device Added"@ <==> e.kind == EventKind::Add)
            &&& (n.summary == "Device Removed"@ <==> e.kind == EventKind::Remove)
        },
        devtype_key(e) == "usb_device"@ && !(e.kind == EventKind::Add || e.kind
            == EventKind::Remove) ==> handler_action(e) == ActionView::Nothing,
{
    reveal_strlit("Device Added");
    reveal_strlit("Device Removed");
    reveal_strlit("usb_device");
    reveal_strlit("disk");
    assert("Device Added"@[7] != "Device Removed"@[7]);
    assert("usb_device"@.len() != "disk"@.len());
}

/// A power supply event yields a notification exactly when it is a change
/// whose `type` attribute is exactly `Mains`; any other supply type (USB,
/// UPS, Battery, ...) or event kind yields none. The notification carries
/// the id 9999 and the `battery` icon. The handler reads the `online`
/// attribute only for such a mains change.
pub proof fn lemma_power_reports_only_mains_changes(e: DeviceEvent)
    ensures
        power_notification(e) is Some <==> (e.kind == EventKind::Change && property_is(
            e.supply_type,
            "Mains"@,
        )),
        power_notification(e) matches Some(n) ==> n.id == Some(9999u32) && n.icon == "battery"@,
        power_attributes_present(e) <==> ((e.kind == EventKind::Change ==> !(
        e.supply_type is Absent)) && (e.kind == EventKind::Change && property_is(
            e.supply_type,
            "Mains"@,
        ) ==> !(e.supply_online is Absent))),
        devtype_key(e) == "power_supply"@ && !(e.kind == EventKind::Change && property_is(
            e.supply_type,
            "Mains"@,
        )) ==> handler_action(e) == ActionView::Nothing,
{
    reveal_strlit("power_supply");
    reveal_strlit("usb_device");
    reveal_strlit("disk");
    assert("power_supply"@.len() != "disk"@.len());
    assert("power_supply"@.len() != "usb_device"@.len());
}

/// Handler of device events. It holds no state.
pub struct UdevEventHandler {}

fn optional_notification(n: Option<NotificationRequest>) -> (a: HandlerAction)
    ensures
        a@ == (match n {
            Some(r) => ActionView::Notify(r@),
            None => ActionView::Nothing,
        }),
{
    match n {
        Some(r) => HandlerAction::Notify(r),
        None => HandlerAction::Nothing,
    }
}

impl UdevEventHandler {
    /// A new handler.
    pub fn init() -> (h: Self) {
        UdevEventHandler {  }
    }

    /// Whether the handler accepts `event` (see [`handler_accepts`]).
    pub fn accepts(&self, event: &DeviceEvent) -> (b: bool)
        ensures
            b == handler_accepts(*event),
    {
        let is_power = match &event.devtype {
            Some(d) => text_equals(d.as_str(), "power_supply"),
            None => {
                proof {
                    reveal_strlit("unknown");
                    reveal_strlit("power_supply");
                    assert("unknown"@[0] != "power_supply"@[0]);
                }
                false
            },
        };
        if !is_power {
            return true;
        }
        if event.kind == EventKind::Change {
            if let PropertyValue::Absent = event.supply_type {
                return false;
            }
            if property_equals(&event.supply_type, "Mains") {
                if let PropertyValue::Absent = event.supply_online {
                    return false;
                }
            }
        }
        true
    }

    /// Handles one event: the line to log, and what to show.
    pub fn handle_event(&self, event: &DeviceEvent) -> (r: HandledEvent)
        requires
            handler_accepts(*event),
        ensures
            r@ == (handler_log(*event), handler_action(*event)),
    {
        let log = event_log(event);
        let action = match &event.devtype {
            None => {
                proof {
                    reveal_strlit("unknown");
                    reveal_strlit("disk");
                    reveal_strlit("usb_device");
                    reveal_strlit("power_supply");
                    assert("unknown"@[0] != "disk"@[0]);
                    assert("unknown"@.len() != "usb_device"@.len());
                    assert("unknown"@[0] != "power_supply"@[0]);
                }
                HandlerAction::Warn(String::from_str("Warning: unknown device type on event: "))
            },
            Some(d) => {
                let d = d.as_str();
                if text_equals(d, "disk") {
                    HandlerAction::Notify(self.handle_disk_devtype(event))
                } else if text_equals(d, "usb_device") {
                    optional_notification(self.handle_usb_devtype(event))
                } else if text_equals(d, "power_supply") {
                    optional_notification(self.handle_power_supply_devtype(event))
                } else if text_equals(d, "unknown") {
                    HandlerAction::Warn(
                        String::from_str("Warning: unknown device type on event: "),
                    )
                } else {
                    HandlerAction::Nothing
                }
            },
        };
        HandledEvent { log, action }
    }

    /// The notification for a disk event (see [`disk_notification`]).
    pub fn handle_disk_devtype(&self, event: &DeviceEvent) -> (n: NotificationRequest)
        ensures
            n@ == disk_notification(*event),
    {
        let dev_name = self.get_usb_device_name(event);
        match event.kind {
            EventKind::Add => device_notice("Device Added", "A device was added: ", &dev_name),
            EventKind::Remove => device_notice(
                "Device Removed",
                "A device was removed: ",
                &dev_name,
            ),
            EventKind::Change => device_notice(
                "Device Changed",
                "A device was changed: ",
                &dev_name,
            ),
            _ => NotificationRequest::blank(),
        }
    }

    /// The notification for a power supply event (see [`power_notification`]).
    pub fn handle_power_supply_devtype(&self, event: &DeviceEvent) -> (n: Option<
        NotificationRequest,
    >)
        requires
            power_attributes_present(*event),
        ensures
            optional_view(n) == power_notification(*event),
            n is Some <==> (event.kind == EventKind::Change && property_is(
                event.supply_type,
                "Mains"@,
            )),
    {
        proof {
            lemma_power_reports_only_mains_changes(*event);
        }
        if event.kind == EventKind::Change && property_equals(&event.supply_type, "Mains") {
            let is_charging = property_equals(&event.supply_online, "1");
            let mut summary = String::from_str("Battery status: ");
            if is_charging {
                summary.append("charging");
            } else {
                summary.append("discharging");
            }
            Some(
                NotificationRequest::new(
                    Some(9999),
                    summary,
                    String::new(),
                    String::from_str("battery"),
                ),
            )
        } else {
            None
        }
    }

    /// The notification for a USB device event (see [`usb_notification`]).
    pub fn handle_usb_devtype(&self, event: &DeviceEvent) -> (n: Option<NotificationRequest>)
        ensures
            optional_view(n) == usb_notification(*event),
            n is Some <==> (event.kind == EventKind::Add || event.kind == EventKind::Remove),
    {
        proof {
            lemma_usb_reports_only_additions_and_removals(*event);
        }
        let dev_name = self.get_usb_device_name(event);
        match event.kind {
            EventKind::Add => Some(device_notice("Device Added", "A device was added: ", &dev_name)),
            EventKind::Remove => Some(
                device_notice("Device Removed", "A device was removed: ", &dev_name),
            ),
            _ => None,
        }
    }

    /// The name of the event's device (see [`device_name`]).
    pub fn get_usb_device_name(&self, device: &DeviceEvent) -> (name: String)
        ensures
            name@ == device_name(device.vendor, device.model),
    {
        match (&device.vendor, &device.model) {
            (Some(vendor), Some(model)) => {
                let mut s = String::from_str(vendor.as_str());
                s.append(" ");
                s.append(model.as_str());
                s
            },
            (Some(vendor), None) => String::from_str(vendor.as_str()),
            (None, Some(model)) => String::from_str(model.as_str()),
            (None, None) => String::from_str("Unknown"),
        }
    }
}

/// A device notification: `summary`, the body `lead` followed by the
/// device name, and the `device` icon.
fn device_notice(summary: &str, lead: &str, name: &String) -> (n: NotificationRequest)
    ensures
        n@ == notice(None, summary@, lead@ + name@, "device"@),
{
    let mut body = String::from_str(lead);
    body.append(name.as_str());
    NotificationRequest::new(None, String::from_str(summary), body, String::from_str("device"))
}

/// The line logged for `event` (see [`handler_log`]).
fn event_log(event: &DeviceEvent) -> (s: String)
    ensures
        s@ == handler_log(*event),
{
    let mut s = String::new();
    append_decimal(&mut s, event.sequence_number);
    s.append(": ");
    s.append(event_kind_name(event.kind));
    s.append("\n");
    append_text_or(&mut s, &event.syspath, "---");
    s.append("\nsubsystem=");
    append_text_or(&mut s, &event.subsystem, "");
    s.append(",\nsysname=");
    append_text_or(&mut s, &event.sysname, "");
    s.append(",\ndevtype=");
    append_text_or(&mut s, &event.devtype, "");
    s.append("\n\n");
    proof {
        reveal_strlit("");
        assert(s@ =~= handler_log(*event));
    }
    s
}

} // verus!
