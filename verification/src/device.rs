//! A device event as the handlers read it: the fields of a udev event that
//! the decisions depend on, held as plain values.

use vstd::prelude::*;
use vstd::string::*;

verus! {

/// The action that a device event reports.
#[derive(Debug, Clone, Copy, PartialEq, Eq, Structural)]
pub enum EventKind {
    Add,
    Change,
    Remove,
    Bind,
    Unbind,
    Unknown,
}

/// A property or attribute value of a device: absent, present but not
/// valid UTF-8, or present as text.
#[derive(Debug)]
pub enum PropertyValue {
    Absent,
    NotUtf8,
    Text(String),
}

/// The fields of a udev event that the handlers read.
///
/// `syspath`, `subsystem`, `sysname` and `devtype` are `None` where the
/// value is absent or not valid UTF-8. `vendor` and `model` are the
/// `ID_VENDOR` and `ID_MODEL` properties, converted lossily to text.
/// `dev_name` is the `DEVNAME` property; `supply_type` and `supply_online`
/// are the `type` and `online` attributes.
#[derive(Debug)]
pub struct DeviceEvent {
    pub sequence_number: u64,
    pub kind: EventKind,
    pub syspath: Option<String>,
    pub subsystem: Option<String>,
    pub sysname: Option<String>,
    pub devtype: Option<String>,
    pub vendor: Option<String>,
    pub model: Option<String>,
    pub dev_name: PropertyValue,
    pub supply_type: PropertyValue,
    pub supply_online: PropertyValue,
}

/// The name under which an event kind is displayed.
pub open spec fn kind_name(k: EventKind) -> Seq<char> {
    match k {
        EventKind::Add => "add"@,
        EventKind::Change => "change"@,
        EventKind::Remove => "remove"@,
        EventKind::Bind => "bind"@,
        EventKind::Unbind => "unbind"@,
        EventKind::Unknown => "unknown"@,
    }
}

/// The text of `o`, or `dflt` where there is none.
pub open spec fn text_or(o: Option<String>, dflt: Seq<char>) -> Seq<char> {
    match o {
        Some(s) => s@,
        None => dflt,
    }
}

/// `p` is present and its text is `t`.
pub open spec fn property_is(p: PropertyValue, t: Seq<char>) -> bool {
    match p {
        PropertyValue::Text(s) => s@ == t,
        _ => false,
    }
}

/// The name under which an event kind is displayed.
pub fn event_kind_name(k: EventKind) -> (r: &'static str)
    ensures
        r@ == kind_name(k),
{
    match k {
        EventKind::Add => "add",
        EventKind::Change => "change",
        EventKind::Remove => "remove",
        EventKind::Bind => "bind",
        EventKind::Unbind => "unbind",
        EventKind::Unknown => "unknown",
    }
}

/// Appends the text of `o`, or `dflt` where there is none, to `out`.
pub fn append_text_or(out: &mut String, o: &Option<String>, dflt: &str)
    ensures
        final(out)@ == old(out)@ + text_or(*o, dflt@),
{
    match o {
        Some(s) => out.append(s.as_str()),
        None => out.append(dflt),
    }
}

/// Whether `p` is present with text `t`.
pub fn property_equals(p: &PropertyValue, t: &str) -> (b: bool)
    ensures
        b == property_is(*p, t@),
{
    match p {
        PropertyValue::Text(s) => crate::text::text_equals(s.as_str(), t),
        _ => false,
    }
}

} // verus!
