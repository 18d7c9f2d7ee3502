//! Discovered-but-unconnected devices: a tagged union over the two channels,
//! and the naming resolver that derives a channel-tagged display string.
//!
//! A handle is opaque to this core: what the naming and matching logic reads
//! of it (the product string of a wired device, the advertised local name of
//! a wireless one) is carried here as plain values, together with an identity
//! token by which the hosting layer can find the native handle again.  The
//! channel-specific side effect of reading wireless metadata (establishing a
//! transient link) happens in the hosting layer before the values arrive
//! here; naming itself is then a pure function of the device value.

use vstd::prelude::*;
use vstd::string::StringExecFns;

use crate::error::LedgerUtilityError;

verus! {

/// The two physical channels through which a device can be reached.
#[derive(Clone, Copy, PartialEq, Eq, Structural, Debug)]
pub enum Channel {
    Bluetooth,
    Usb,
}

/// What discovery reports of one wired (HID) device: an identity token for
/// the native handle, and the product string if the descriptor carries one.
#[derive(Debug)]
pub struct UsbDeviceInfo {
    /// Identity of the native HID handle, assigned by the hosting layer.
    pub id: u64,
    /// The device descriptor's product string, absent when the descriptor
    /// does not carry one.
    pub product_string: Option<String>,
}

/// The advertised properties of one wireless peripheral, once read.
#[derive(Debug)]
pub struct BleMetadata {
    /// The advertised local name, absent when the peripheral does not
    /// advertise one.
    pub local_name: Option<String>,
}

/// What discovery reports of one wireless (BLE) device: an identity token
/// for the native peripheral, and its property record if it could be read.
#[derive(Debug)]
pub struct BlePeripheral {
    /// Identity of the native peripheral, assigned by the hosting layer.
    pub id: u64,
    /// The peripheral's property record; `None` when the record itself could
    /// not be read (distinct from a record without a local name).
    pub metadata: Option<BleMetadata>,
}

/// A discovered, not yet connected device: an opaque channel-native handle
/// tagged with its channel.  Created by discovery; consumed exactly once,
/// either by `Connection::connect` or by being dropped.
#[derive(Debug)]
pub enum Device {
    Bluetooth(BlePeripheral),
    Usb(UsbDeviceInfo),
}

/// The fixed tag that opens every wired device's display name.
pub open spec fn usb_prefix() -> Seq<char> {
    "Usb: "@
}

/// The fixed tag that opens every wireless device's display name.
pub open spec fn bluetooth_prefix() -> Seq<char> {
    "Bluetooth: "@
}

/// The placeholder shown for a wireless peripheral that advertises no name.
pub open spec fn unknown_peripheral_name() -> Seq<char> {
    "(peripheral name unknown)"@
}

/// Whether naming can succeed for `d`: a wired device can always be named,
/// a wireless one only once its property record was read.
pub open spec fn name_ok_spec(d: Device) -> bool {
    match d {
        Device::Bluetooth(p) => p.metadata is Some,
        Device::Usb(_) => true,
    }
}

/// The display name of `d`: the channel tag followed by the native name,
/// with a channel-specific fallback where the name field is absent.
pub open spec fn name_spec(d: Device) -> Seq<char>
    recommends
        name_ok_spec(d),
{
    match d {
        Device::Bluetooth(p) => bluetooth_prefix() + (match p.metadata->Some_0.local_name {
            Some(n) => n@,
            None => unknown_peripheral_name(),
        }),
        Device::Usb(i) => usb_prefix() + (match i.product_string {
            Some(p) => p@,
            None => Seq::<char>::empty(),
        }),
    }
}

impl Device {
    /// The channel this device was discovered on.
    pub open spec fn channel_spec(self) -> Channel {
        match self {
            Device::Bluetooth(_) => Channel::Bluetooth,
            Device::Usb(_) => Channel::Usb,
        }
    }

    /// The channel this device was discovered on.
    pub fn channel(&self) -> (c: Channel)
        ensures
            c == self.channel_spec(),
    {
        match self {
            Device::Bluetooth(_) => Channel::Bluetooth,
            Device::Usb(_) => Channel::Usb,
        }
    }

    /// The naming resolver: a prefixed display string, `"Usb: "` or
    /// `"Bluetooth: "` followed by the native name.
    ///
    /// A wired device without a product string keeps the bare tag; a wireless
    /// peripheral without an advertised name gets a fixed placeholder; a
    /// wireless peripheral whose property record is absent altogether cannot
    /// be named at all and yields `MetadataUnavailable`.
    pub fn name(&self) -> (r: Result<String, LedgerUtilityError>)
        ensures
            r is Ok <==> name_ok_spec(*self),
            r matches Ok(s) ==> s@ == name_spec(*self),
            r matches Err(e) ==> e == LedgerUtilityError::MetadataUnavailable,
    {
        match self {
            Device::Bluetooth(p) => match &p.metadata {
                None => Err(LedgerUtilityError::MetadataUnavailable),
                Some(md) => {
                    let mut s = String::from_str("Bluetooth: ");
                    match &md.local_name {
                        Some(n) => s.append(n.as_str()),
                        None => s.append("(peripheral name unknown)"),
                    }
                    Ok(s)
                },
            },
            Device::Usb(i) => {
                let mut s = String::from_str("Usb: ");
                match &i.product_string {
                    Some(p) => s.append(p.as_str()),
                    None => {
                        proof {
                            assert(s@ =~= usb_prefix() + Seq::<char>::empty());
                        }
                    },
                }
                Ok(s)
            },
        }
    }
}

/// Naming is prefix-tagged deterministically: a wired device's name always
/// begins with the wired channel tag, a wireless device's name with the
/// wireless tag, and the two tags are distinct.
pub proof fn lemma_name_prefix_tagged(d: Device)
    requires
        name_ok_spec(d),
    ensures
        d is Usb ==> name_spec(d).take(usb_prefix().len() as int) == usb_prefix(),
        d is Bluetooth ==> name_spec(d).take(bluetooth_prefix().len() as int) == bluetooth_prefix(),
        usb_prefix() != bluetooth_prefix(),
{
    reveal_strlit("Usb: ");
    reveal_strlit("Bluetooth: ");
    match d {
        Device::Usb(_) => {
            assert(name_spec(d).take(usb_prefix().len() as int) =~= usb_prefix());
        },
        Device::Bluetooth(_) => {
            assert(name_spec(d).take(bluetooth_prefix().len() as int) =~= bluetooth_prefix());
        },
    }
    assert(usb_prefix().len() != bluetooth_prefix().len());
}

/// Two devices on different channels can never resolve to the same display
/// name: the first character of the name already decides the channel.
pub proof fn lemma_names_distinct_across_channels(d1: Device, d2: Device)
    requires
        name_ok_spec(d1),
        name_ok_spec(d2),
        d1.channel_spec() != d2.channel_spec(),
    ensures
        name_spec(d1) != name_spec(d2),
{
    reveal_strlit("Usb: ");
    reveal_strlit("Bluetooth: ");
    assert(name_spec(d1)[0] != name_spec(d2)[0]);
}

} // verus!
