//! Battery report: the charging status and energy readings of the power
//! supply, and the message that describes the time left.

use vstd::prelude::*;
use vstd::string::*;

use crate::text::{
    append_decimal, decimal, lemma_trim_idempotent, parse_u64, parse_u64_text, text_equals, trim,
    trim_text,
};

verus! {

/// The charging status that the power supply reports.
#[derive(Debug, Clone, Copy, PartialEq, Eq, Structural)]
pub enum BatteryStatus {
    Charging,
    Discharging,
    Full,
    NotCharging,
    Unknown,
}

/// The status named by a status text, once surrounding whitespace is
/// removed; any text other than the four known names is `Unknown`.
pub open spec fn status_of(text: Seq<char>) -> BatteryStatus {
    let t = trim(text);
    if t == "Charging"@ {
        BatteryStatus::Charging
    } else if t == "Discharging"@ {
        BatteryStatus::Discharging
    } else if t == "Full"@ {
        BatteryStatus::Full
    } else if t == "Not charging"@ {
        BatteryStatus::NotCharging
    } else {
        BatteryStatus::Unknown
    }
}

/// The value of an energy or power reading: the text without surrounding
/// whitespace, read as an unsigned 64-bit decimal number.
pub open spec fn reading_value(text: Seq<char>) -> Option<u64> {
    parse_u64(trim(text))
}

/// `n` written with at least two digits.
pub open spec fn two_digits(n: nat) -> Seq<char> {
    if n < 10 {
        seq!['0'] + decimal(n)
    } else {
        decimal(n)
    }
}

/// Hours of a duration of `t` seconds.
pub open spec fn clock_hours(t: nat) -> nat {
    t / 3600
}

/// Minutes past the hour of a duration of `t` seconds.
pub open spec fn clock_minutes(t: nat) -> nat {
    (t % 3600) / 60
}

/// Seconds past the minute of a duration of `t` seconds.
pub open spec fn clock_seconds(t: nat) -> nat {
    t % 60
}

/// A duration of `t` seconds as `HH:MM:SS`; the hours take more than two
/// digits when they need them.
pub open spec fn clock_text(t: nat) -> Seq<char> {
    two_digits(clock_hours(t)) + seq![':'] + two_digits(clock_minutes(t)) + seq![':'] + two_digits(
        clock_seconds(t),
    )
}

/// The message that describes the battery: for a charging or discharging
/// battery the time until full or empty (when an estimate exists),
/// otherwise its status.
pub open spec fn time_to_message(status: BatteryStatus, estimate: Option<u64>) -> Seq<char> {
    match status {
        BatteryStatus::Charging => match estimate {
            Some(t) => "Time to full: "@ + clock_text(t as nat),
            None => "Unable to calculate time to full"@,
        },
        BatteryStatus::Discharging => match estimate {
            Some(t) => "Time to empty: "@ + clock_text(t as nat),
            None => "Unable to calculate time to empty"@,
        },
        BatteryStatus::Full => "Battery is fully charged."@,
        BatteryStatus::NotCharging => "Battery is not charging."@,
        BatteryStatus::Unknown => "Battery status is unknown or not supported."@,
    }
}

/// The status named by the text of the status file.
pub fn parse_status(text: &str) -> (s: BatteryStatus)
    ensures
        s == status_of(text@),
{
    let t = trim_text(text);
    let t = t.as_str();
    if text_equals(t, "Charging") {
        BatteryStatus::Charging
    } else if text_equals(t, "Discharging") {
        BatteryStatus::Discharging
    } else if text_equals(t, "Full") {
        BatteryStatus::Full
    } else if text_equals(t, "Not charging") {
        BatteryStatus::NotCharging
    } else {
        BatteryStatus::Unknown
    }
}

/// The value of the text of an energy or power file, or `None` where it is
/// not a number.
pub fn parse_battery_value(text: &str) -> (v: Option<u64>)
    ensures
        v == reading_value(text@),
{
    let t = trim_text(text);
    parse_u64_text(t.as_str())
}

fn append_two_digits(out: &mut String, n: u64)
    ensures
        final(out)@ == old(out)@ + two_digits(n as nat),
{
    if n < 10 {
        out.append("0");
        proof {
            reveal_strlit("0");
        }
    }
    append_decimal(out, n);
    assert(final(out)@ =~= old(out)@ + two_digits(n as nat));
}

/// A duration of `t` seconds as `HH:MM:SS` (see [`clock_text`]).
pub fn format_seconds(t: u64) -> (s: String)
    ensures
        s@ == clock_text(t as nat),
{
    let mut s = String::new();
    append_two_digits(&mut s, t / 3600);
    s.append(":");
    append_two_digits(&mut s, (t % 3600) / 60);
    s.append(":");
    append_two_digits(&mut s, t % 60);
    proof {
        reveal_strlit(":");
        assert(s@ =~= clock_text(t as nat));
    }
    s
}

/// The battery message for `status`, given the estimated seconds until
/// full (when charging) or empty (when discharging), if there is one.
pub fn get_formatted_time_to(status: BatteryStatus, estimate: Option<u64>) -> (m: String)
    ensures
        m@ == time_to_message(status, estimate),
        status == BatteryStatus::Full ==> m@ == "Battery is fully charged."@,
        status == BatteryStatus::NotCharging ==> m@ == "Battery is not charging."@,
        status == BatteryStatus::Unknown ==> m@ == "Battery status is unknown or not supported."@,
{
    proof {
        lemma_fixed_messages(estimate);
    }
    match status {
        BatteryStatus::Charging => match estimate {
            Some(t) => {
                let mut m = String::from_str("Time to full: ");
                let f = format_seconds(t);
                m.append(f.as_str());
                m
            },
            None => String::from_str("Unable to calculate time to full"),
        },
        BatteryStatus::Discharging => match estimate {
            Some(t) => {
                let mut m = String::from_str("Time to empty: ");
                let f = format_seconds(t);
                m.append(f.as_str());
                m
            },
            None => String::from_str("Unable to calculate time to empty"),
        },
        BatteryStatus::Full => String::from_str("Battery is fully charged."),
        BatteryStatus::NotCharging => String::from_str("Battery is not charging."),
        BatteryStatus::Unknown => String::from_str("Battery status is unknown or not supported."),
    }
}

/// The hours, minutes and seconds of a formatted duration add up to the
/// duration, and minutes and seconds stay below sixty.
pub proof fn lemma_clock_parts(t: nat)
    ensures
        clock_hours(t) * 3600 + clock_minutes(t) * 60 + clock_seconds(t) == t,
        clock_minutes(t) < 60,
        clock_seconds(t) < 60,
{
    assert(clock_hours(t) * 3600 + clock_minutes(t) * 60 + clock_seconds(t) == t) by (nonlinear_arith);
    assert(clock_minutes(t) < 60) by (nonlinear_arith);
}

/// Whitespace around a status or reading text makes no difference.
pub proof fn lemma_readings_ignore_padding(text: Seq<char>)
    ensures
        status_of(trim(text)) == status_of(text),
        reading_value(trim(text)) == reading_value(text),
{
    lemma_trim_idempotent(text);
}

/// A full, not-charging or unknown battery is described by a fixed text,
/// whatever estimate is given; the message of a charging or discharging
/// battery names the estimated time when there is one.
pub proof fn lemma_fixed_messages(estimate: Option<u64>)
    ensures
        time_to_message(BatteryStatus::Full, estimate) == "Battery is fully charged."@,
        time_to_message(BatteryStatus::NotCharging, estimate) == "Battery is not charging."@,
        time_to_message(BatteryStatus::Unknown, estimate)
            == "Battery status is unknown or not supported."@,
        forall|t: u64|
            estimate == Some(t) ==> time_to_message(BatteryStatus::Charging, estimate) == "Time to full: "@
                + clock_text(t as nat) && time_to_message(BatteryStatus::Discharging, estimate)
                == "Time to empty: "@ + clock_text(t as nat),
{
}

/// For every status but charging and discharging, the estimate makes no
/// difference to the message.
pub proof fn lemma_estimate_matters_only_while_charging_or_discharging(
    status: BatteryStatus,
    a: Option<u64>,
    b: Option<u64>,
)
    requires
        status != BatteryStatus::Charging,
        status != BatteryStatus::Discharging,
    ensures
        time_to_message(status, a) == time_to_message(status, b),
{
}

} // verus!
