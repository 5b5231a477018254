//! The desktop notification service.

use vstd::prelude::*;

verus! {

/// The calls made on the `org.freedesktop.Notifications` service.
pub trait Notifications {
    /// The unique identifier that the service hands out, or the reason the
    /// call failed.
    fn get_unique_id(&self) -> Result<u32, String>;
}

} // verus!
