//! Signals of the NetworkManager service.

use vstd::prelude::*;
use vstd::string::*;

use crate::text::{append_decimal, decimal};

verus! {

/// The line logged for a `StateChanged` signal carrying `state`.
pub open spec fn state_changed_line(state: u32) -> Seq<char> {
    "StateChanged received: state="@ + decimal(state as nat)
}

/// The line to log for a `StateChanged` signal carrying `state`.
pub fn state_changed_message(state: u32) -> (s: String)
    ensures
        s@ == state_changed_line(state),
{
    let mut s = String::from_str("StateChanged received: state=");
    append_decimal(&mut s, state as u64);
    s
}

} // verus!
