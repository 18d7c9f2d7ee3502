//! The unified error taxonomy: backend failures are wrapped, never
//! interpreted; exhausting the name-resolution retries is its own error.

use vstd::prelude::*;

verus! {

/// Every failure the core can report.
///
/// A backend failure (`Hid`, `Ble`) carries the backend's own error text,
/// wrapped unchanged.  A wireless device whose metadata could not be read at
/// all yields `MetadataUnavailable`: absence of the whole property record is
/// surfaced as an explicit error, while absence of a single name field is
/// tolerated with a placeholder (see `Device::name`).  `DeviceNotFound` is
/// reported only by the retry search, after every permitted attempt completed
/// without a name match.
#[derive(Debug)]
pub enum LedgerUtilityError {
    /// A failure reported by the wired (HID) backend.
    Hid(String),
    /// A failure reported by the wireless (BLE) backend.
    Ble(String),
    /// A wireless device's property record could not be read at all.
    MetadataUnavailable,
    /// The retry search exhausted all attempts without a name match.
    DeviceNotFound,
}

} // verus!
