use sysnotify::device::{DeviceEvent, EventKind, PropertyValue};
use sysnotify::listener::{handle_event as listener_handle_event, listener_accepts_event, poll_step, PollStep};
use sysnotify::udev::handler::{HandlerAction, UdevEventHandler};
use sysnotify::udev::monitored_devices;

fn event(kind: EventKind, devtype: Option<&str>) -> DeviceEvent {
    DeviceEvent {
        sequence_number: 4021,
        kind,
        syspath: Some("/sys/devices/pci0000:00/usb1/1-2".to_string()),
        subsystem: Some("usb".to_string()),
        sysname: Some("1-2".to_string()),
        devtype: devtype.map(|s| s.to_string()),
        vendor: Some("SanDisk".to_string()),
        model: Some("Cruzer".to_string()),
        dev_name: PropertyValue::Text("/dev/sdb".to_string()),
        supply_type: PropertyValue::Absent,
        supply_online: PropertyValue::Absent,
    }
}

fn notified(a: HandlerAction) -> (Option<u32>, String, String, String) {
    match a {
        HandlerAction::Notify(n) => (n.id, n.summary, n.body, n.icon),
        other => panic!("expected a notification, got {:?}", other),
    }
}

#[test]
fn handler_log_line() {
    let h = UdevEventHandler::init();
    let r = h.handle_event(&event(EventKind::Add, Some("usb_device")));
    assert_eq!(
        r.log,
        "4021: add\n/sys/devices/pci0000:00/usb1/1-2\nsubsystem=usb,\nsysname=1-2,\ndevtype=usb_device\n\n"
    );
    let mut e = event(EventKind::Change, None);
    e.syspath = None;
    e.subsystem = None;
    let r = h.handle_event(&e);
    assert_eq!(r.log, "4021: change\n---\nsubsystem=,\nsysname=1-2,\ndevtype=\n\n");
}

#[test]
fn usb_events() {
    let h = UdevEventHandler::init();
    let (id, s, b, i) = notified(h.handle_event(&event(EventKind::Add, Some("usb_device"))).action);
    assert_eq!((id, s.as_str(), b.as_str(), i.as_str()), (None, "Device Added", "A device was added: SanDisk Cruzer", "device"));
    let (_, s, b, _) = notified(h.handle_event(&event(EventKind::Remove, Some("usb_device"))).action);
    assert_eq!((s.as_str(), b.as_str()), ("Device Removed", "A device was removed: SanDisk Cruzer"));
    assert!(matches!(h.handle_event(&event(EventKind::Change, Some("usb_device"))).action, HandlerAction::Nothing));
    assert!(matches!(h.handle_event(&event(EventKind::Bind, Some("usb_device"))).action, HandlerAction::Nothing));
}

#[test]
fn disk_events() {
    let h = UdevEventHandler::init();
    let (_, s, b, i) = notified(h.handle_event(&event(EventKind::Change, Some("disk"))).action);
    assert_eq!((s.as_str(), b.as_str(), i.as_str()), ("Device Changed", "A device was changed: SanDisk Cruzer", "device"));
    let (id, s, b, i) = notified(h.handle_event(&event(EventKind::Unbind, Some("disk"))).action);
    assert_eq!((id, s.as_str(), b.as_str(), i.as_str()), (None, "", "", ""));
}

#[test]
fn device_names() {
    let h = UdevEventHandler::init();
    let mut e = event(EventKind::Add, Some("disk"));
    assert_eq!(h.get_usb_device_name(&e), "SanDisk Cruzer");
    e.model = None;
    assert_eq!(h.get_usb_device_name(&e), "SanDisk");
    e.vendor = None;
    assert_eq!(h.get_usb_device_name(&e), "Unknown");
    e.model = Some("Cruzer".to_string());
    assert_eq!(h.get_usb_device_name(&e), "Cruzer");
}

#[test]
fn power_supply_events() {
    let h = UdevEventHandler::init();
    let mut e = event(EventKind::Change, Some("power_supply"));
    e.supply_type = PropertyValue::Text("Mains".to_string());
    e.supply_online = PropertyValue::Text("1".to_string());
    assert!(h.accepts(&e));
    let (id, s, b, i) = notified(h.handle_event(&e).action);
    assert_eq!((id, s.as_str(), b.as_str(), i.as_str()), (Some(9999), "Battery status: charging", "", "battery"));
    e.supply_online = PropertyValue::Text("0".to_string());
    let (_, s, _, _) = notified(h.handle_event(&e).action);
    assert_eq!(s, "Battery status: discharging");
    e.supply_type = PropertyValue::Text("Battery".to_string());
    assert!(matches!(h.handle_event(&e).action, HandlerAction::Nothing));
    let mut a = event(EventKind::Add, Some("power_supply"));
    a.supply_type = PropertyValue::Absent;
    assert!(h.accepts(&a));
    assert!(matches!(h.handle_event(&a).action, HandlerAction::Nothing));
}

#[test]
fn power_supply_missing_attributes_are_refused() {
    let h = UdevEventHandler::init();
    let mut e = event(EventKind::Change, Some("power_supply"));
    assert!(!h.accepts(&e));
    e.supply_type = PropertyValue::Text("Mains".to_string());
    assert!(!h.accepts(&e));
    e.supply_online = PropertyValue::NotUtf8;
    assert!(h.accepts(&e));
    let (_, s, _, _) = notified(h.handle_event(&e).action);
    assert_eq!(s, "Battery status: discharging");
}

#[test]
fn unknown_and_other_devtypes() {
    let h = UdevEventHandler::init();
    for d in [None, Some("unknown")] {
        match h.handle_event(&event(EventKind::Add, d)).action {
            HandlerAction::Warn(w) => assert_eq!(w, "Warning: unknown device type on event: "),
            other => panic!("unexpected {:?}", other),
        }
    }
    assert!(matches!(h.handle_event(&event(EventKind::Add, Some("partition"))).action, HandlerAction::Nothing));
}

#[test]
fn listener_events() {
    let r = listener_handle_event(&event(EventKind::Add, Some("disk")));
    assert_eq!(
        r.log,
        "4021: add /sys/devices/pci0000:00/usb1/1-2 (subsystem=usb, sysname=1-2, devtype=disk)"
    );
    let (id, s, b, i) = notified(r.action);
    assert_eq!((id, s.as_str(), b.as_str(), i.as_str()), (None, "Device Added", "A device was added: /dev/sdb", "device"));
    let mut e = event(EventKind::Change, None);
    e.dev_name = PropertyValue::Absent;
    let (_, s, b, _) = notified(listener_handle_event(&e).action);
    assert_eq!((s.as_str(), b.as_str()), ("Device Changed", "A device was changed: "));
    let (_, s, _, _) = notified(listener_handle_event(&event(EventKind::Remove, None)).action);
    assert_eq!(s, "Device Removed");
    assert!(matches!(listener_handle_event(&event(EventKind::Bind, None)).action, HandlerAction::Nothing));
    e.dev_name = PropertyValue::NotUtf8;
    assert!(!listener_accepts_event(&e));
    e.kind = EventKind::Unknown;
    assert!(listener_accepts_event(&e));
}

#[test]
fn polling_steps() {
    assert_eq!(poll_step(-1, false), PollStep::Fail);
    assert_eq!(poll_step(-1, true), PollStep::Fail);
    assert_eq!(poll_step(0, false), PollStep::Sleep(10));
    assert_eq!(poll_step(1, true), PollStep::Handle);
}

#[test]
fn watched_devices() {
    let v = monitored_devices();
    let pairs: Vec<(&str, &str)> = v.iter().map(|(a, b)| (a.as_str(), b.as_str())).collect();
    assert_eq!(pairs, vec![("usb", "usb_device"), ("block", "disk"), ("power_supply", "power_supply")]);
}

#[test]
fn usb_and_disk_handlers_agree_on_additions_and_removals() {
    let h = UdevEventHandler::init();
    for kind in [EventKind::Add, EventKind::Remove] {
        let e = event(kind, Some("disk"));
        let disk = h.handle_disk_devtype(&e);
        let usb = h.handle_usb_devtype(&e).unwrap();
        assert_eq!((disk.id, disk.summary, disk.body, disk.icon), (usb.id, usb.summary, usb.body, usb.icon));
    }
}

#[test]
fn listener_words_like_the_disk_handler() {
    let h = UdevEventHandler::init();
    for (kind, lead) in [
        (EventKind::Add, "A device was added: "),
        (EventKind::Remove, "A device was removed: "),
        (EventKind::Change, "A device was changed: "),
    ] {
        let e = event(kind, Some("disk"));
        let disk = h.handle_disk_devtype(&e);
        let (id, s, b, i) = notified(listener_handle_event(&e).action);
        assert_eq!((id, s, i), (disk.id, disk.summary.clone(), disk.icon.clone()));
        assert_eq!(b, format!("{}/dev/sdb", lead));
        assert_eq!(disk.body, format!("{}SanDisk Cruzer", lead));
    }
}
