//! The coordinator: runtime registration of the enabled channels, the merge
//! of every channel's enumeration results into one device list, and the
//! handle-to-session transition.
//!
//! Enumerating a channel and opening a handle are backend work; their
//! outcomes enter here as one report per enabled channel, in the fixed order
//! the configuration prescribes.  The verified part is everything decided on
//! those reports: that discovery concatenates the per-channel results in
//! configuration order and preserves each channel's own order, that a single
//! failing channel fails the whole discovery (no partial results), and that
//! connecting transfers a device into a session of the matching variant.

use vstd::prelude::*;

use crate::device::BlePeripheral;
use crate::device::Channel;
use crate::device::Device;
use crate::device::UsbDeviceInfo;
use crate::error::LedgerUtilityError;
use crate::session::BleTransport;
use crate::session::HidTransport;
use crate::session::Ledger;

verus! {

/// One channel's enumeration outcome, as its backend reported it: the
/// reachable handles in the backend's own order, or the backend's error text.
#[derive(Debug)]
pub enum ChannelReport {
    Bluetooth(Result<Vec<BlePeripheral>, String>),
    Usb(Result<Vec<UsbDeviceInfo>, String>),
}

/// The channel whose backend produced this report.
pub open spec fn report_channel(r: ChannelReport) -> Channel {
    match r {
        ChannelReport::Bluetooth(_) => Channel::Bluetooth,
        ChannelReport::Usb(_) => Channel::Usb,
    }
}

/// Whether this channel's enumeration succeeded.
pub open spec fn report_ok(r: ChannelReport) -> bool {
    match r {
        ChannelReport::Bluetooth(res) => res is Ok,
        ChannelReport::Usb(res) => res is Ok,
    }
}

/// The devices a successful report contributes, each tagged with its channel.
pub open spec fn report_devices(r: ChannelReport) -> Seq<Device>
    recommends
        report_ok(r),
{
    match r {
        ChannelReport::Bluetooth(res) => res->Ok_0@.map_values(|p: BlePeripheral| Device::Bluetooth(p)),
        ChannelReport::Usb(res) => res->Ok_0@.map_values(|i: UsbDeviceInfo| Device::Usb(i)),
    }
}

/// The unified error a failed report propagates: the backend's text, wrapped
/// under that channel's variant.
pub open spec fn report_error(r: ChannelReport) -> LedgerUtilityError
    recommends
        !report_ok(r),
{
    match r {
        ChannelReport::Bluetooth(res) => match res {
            Ok(_) => arbitrary(),
            Err(m) => LedgerUtilityError::Ble(m),
        },
        ChannelReport::Usb(res) => match res {
            Ok(_) => arbitrary(),
            Err(m) => LedgerUtilityError::Hid(m),
        },
    }
}

/// Whether every channel's enumeration succeeded.
pub open spec fn all_reports_ok(rs: Seq<ChannelReport>) -> bool {
    forall|i: int| 0 <= i < rs.len() ==> report_ok(#[trigger] rs[i])
}

/// The merged device list: each report's devices, concatenated in report
/// order.
pub open spec fn merged_devices(rs: Seq<ChannelReport>) -> Seq<Device>
    decreases rs.len(),
{
    if rs.len() == 0 {
        Seq::<Device>::empty()
    } else {
        report_devices(rs[0]) + merged_devices(rs.drop_first())
    }
}

/// The error of the first failed report, in report order.
pub open spec fn first_error(rs: Seq<ChannelReport>) -> LedgerUtilityError
    recommends
        !all_reports_ok(rs),
    decreases rs.len(),
{
    if rs.len() == 0 {
        arbitrary()
    } else if !report_ok(rs[0]) {
        report_error(rs[0])
    } else {
        first_error(rs.drop_first())
    }
}

/// How many devices all reports announce together.
pub open spec fn total_reported(rs: Seq<ChannelReport>) -> nat
    recommends
        all_reports_ok(rs),
    decreases rs.len(),
{
    if rs.len() == 0 {
        0
    } else {
        report_devices(rs[0]).len() + total_reported(rs.drop_first())
    }
}

/// Appending one report extends the merged list by that report's devices.
pub proof fn lemma_merged_devices_push(rs: Seq<ChannelReport>, r: ChannelReport)
    ensures
        merged_devices(rs.push(r)) == merged_devices(rs) + report_devices(r),
    decreases rs.len(),
{
    if rs.len() == 0 {
        assert(rs.push(r).drop_first() =~= Seq::<ChannelReport>::empty());
        assert(rs.push(r)[0] == r);
        assert(merged_devices(Seq::<ChannelReport>::empty()) == Seq::<Device>::empty());
        assert(merged_devices(rs.push(r)) == report_devices(r) + Seq::<Device>::empty());
        assert(report_devices(r) + Seq::<Device>::empty() =~= Seq::<Device>::empty()
            + report_devices(r));
    } else {
        assert(rs.push(r).drop_first() =~= rs.drop_first().push(r));
        lemma_merged_devices_push(rs.drop_first(), r);
        assert(rs.push(r)[0] == rs[0]);
        assert(merged_devices(rs.push(r)) == report_devices(rs[0]) + (merged_devices(
            rs.drop_first(),
        ) + report_devices(r)));
        assert(report_devices(rs[0]) + (merged_devices(rs.drop_first()) + report_devices(r)) =~= (
        report_devices(rs[0]) + merged_devices(rs.drop_first())) + report_devices(r));
    }
}

/// When the reports before position `k` all succeeded and the one at `k`
/// failed, the whole discovery fails with exactly that report's error.
pub proof fn lemma_first_error_at(rs: Seq<ChannelReport>, k: int)
    requires
        0 <= k < rs.len(),
        forall|j: int| 0 <= j < k ==> report_ok(#[trigger] rs[j]),
        !report_ok(rs[k]),
    ensures
        !all_reports_ok(rs),
        first_error(rs) == report_error(rs[k]),
    decreases k,
{
    if k > 0 {
        lemma_first_error_at(rs.drop_first(), k - 1);
    }
}

/// The merged list is exactly as long as the per-channel results together:
/// discovery neither drops nor invents devices.
pub proof fn lemma_merged_devices_length(rs: Seq<ChannelReport>)
    ensures
        merged_devices(rs).len() == total_reported(rs),
    decreases rs.len(),
{
    if rs.len() > 0 {
        lemma_merged_devices_length(rs.drop_first());
    }
}

/// The outcome of the channel-specific open call for one device: the opened
/// transport, or the backend's error text.
#[derive(Debug)]
pub enum OpenReport {
    Bluetooth(Result<BleTransport, String>),
    Usb(Result<HidTransport, String>),
}

/// The channel whose backend produced this open outcome.
pub open spec fn open_report_channel(r: OpenReport) -> Channel {
    match r {
        OpenReport::Bluetooth(_) => Channel::Bluetooth,
        OpenReport::Usb(_) => Channel::Usb,
    }
}

/// Whether the open call succeeded.
pub open spec fn open_report_ok(r: OpenReport) -> bool {
    match r {
        OpenReport::Bluetooth(res) => res is Ok,
        OpenReport::Usb(res) => res is Ok,
    }
}

/// The session a successful open call yields.
pub open spec fn opened_session(r: OpenReport) -> Ledger
    recommends
        open_report_ok(r),
{
    match r {
        OpenReport::Bluetooth(res) => match res {
            Ok(t) => Ledger::Bluetooth(t),
            Err(_) => arbitrary(),
        },
        OpenReport::Usb(res) => match res {
            Ok(t) => Ledger::Usb(t),
            Err(_) => arbitrary(),
        },
    }
}

/// The unified error a failed open call propagates.
pub open spec fn open_report_error(r: OpenReport) -> LedgerUtilityError
    recommends
        !open_report_ok(r),
{
    match r {
        OpenReport::Bluetooth(res) => match res {
            Ok(_) => arbitrary(),
            Err(m) => LedgerUtilityError::Ble(m),
        },
        OpenReport::Usb(res) => match res {
            Ok(_) => arbitrary(),
            Err(m) => LedgerUtilityError::Hid(m),
        },
    }
}

/// Tags every wired handle with its channel, preserving the backend's order.
fn tag_usb(list: Vec<UsbDeviceInfo>) -> (r: Vec<Device>)
    ensures
        r@ == list@.map_values(|i: UsbDeviceInfo| Device::Usb(i)),
{
    let ghost orig = list@;
    let mut list = list;
    let mut out: Vec<Device> = Vec::new();
    while list.len() > 0
        invariant
            out@.len() + list@.len() == orig.len(),
            orig.skip(out@.len() as int) == list@,
            out@ == orig.take(out@.len() as int).map_values(|i: UsbDeviceInfo| Device::Usb(i)),
        decreases list@.len(),
    {
        let ghost k = out@.len() as int;
        let info = list.remove(0);
        proof {
            assert(info == orig[k]);
            assert(orig.skip(k).drop_first() =~= orig.skip(k + 1));
        }
        out.push(Device::Usb(info));
        proof {
            assert(out@ =~= orig.take(k + 1).map_values(|i: UsbDeviceInfo| Device::Usb(i)));
        }
    }
    proof {
        assert(orig.take(orig.len() as int) =~= orig);
    }
    out
}

/// Tags every wireless handle with its channel, preserving the backend's
/// order.
fn tag_bluetooth(list: Vec<BlePeripheral>) -> (r: Vec<Device>)
    ensures
        r@ == list@.map_values(|p: BlePeripheral| Device::Bluetooth(p)),
{
    let ghost orig = list@;
    let mut list = list;
    let mut out: Vec<Device> = Vec::new();
    while list.len() > 0
        invariant
            out@.len() + list@.len() == orig.len(),
            orig.skip(out@.len() as int) == list@,
            out@ == orig.take(out@.len() as int).map_values(|p: BlePeripheral| Device::Bluetooth(p)),
        decreases list@.len(),
    {
        let ghost k = out@.len() as int;
        let peripheral = list.remove(0);
        proof {
            assert(peripheral == orig[k]);
            assert(orig.skip(k).drop_first() =~= orig.skip(k + 1));
        }
        out.push(Device::Bluetooth(peripheral));
        proof {
            assert(out@ =~= orig.take(k + 1).map_values(|p: BlePeripheral| Device::Bluetooth(p)));
        }
    }
    proof {
        assert(orig.take(orig.len() as int) =~= orig);
    }
    out
}

/// The process-scoped coordinator: it records which channels are enabled and
/// in which fixed order discovery queries them.  The per-channel manager
/// contexts live in the hosting layer, keyed by the same channel tags.
#[derive(Debug)]
pub struct Connection {
    channels: Vec<Channel>,
}

impl Connection {
    /// The enabled channels, in the fixed order discovery queries them.
    pub closed spec fn channel_seq(self) -> Seq<Channel> {
        self.channels@
    }

    /// At least one channel is enabled — established at construction and
    /// never mutated afterwards.
    pub open spec fn wf(self) -> bool {
        self.channel_seq().len() >= 1
    }

    /// Registers the enabled channels.  The build-time channel toggles of a
    /// feature-gated design become this runtime registration; the "at least
    /// one channel enabled" rule becomes an explicit construction-time check.
    pub fn new(channels: Vec<Channel>) -> (r: Option<Connection>)
        ensures
            r is Some <==> channels@.len() >= 1,
            r matches Some(c) ==> c.channel_seq() == channels@ && c.wf(),
    {
        if channels.len() >= 1 {
            Some(Connection { channels })
        } else {
            None
        }
    }

    /// How many channels are enabled.
    pub fn channel_count(&self) -> (n: usize)
        ensures
            n == self.channel_seq().len(),
    {
        self.channels.len()
    }

    /// The channel discovery queries at position `i`.
    pub fn channel_at(&self, i: usize) -> (c: Channel)
        requires
            i < self.channel_seq().len(),
        ensures
            c == self.channel_seq()[i as int],
    {
        self.channels[i]
    }

    /// Merges one discovery round: every enabled channel was queried to
    /// completion, in configuration order, and `reports` holds their
    /// outcomes in that same order.
    ///
    /// On success the result is the concatenation of the per-channel device
    /// lists, each in its backend's own reported order.  If any channel
    /// failed, the whole discovery fails with the first failing channel's
    /// error — no partial results.
    #[verifier::loop_isolation(false)]
    pub fn get_all_ledgers(&self, reports: Vec<ChannelReport>) -> (r: Result<
        Vec<Device>,
        LedgerUtilityError,
    >)
        requires
            reports@.len() == self.channel_seq().len(),
            forall|i: int|
                0 <= i < reports@.len() ==> report_channel(#[trigger] reports@[i])
                    == self.channel_seq()[i],
        ensures
            r is Ok <==> all_reports_ok(reports@),
            r matches Ok(devices) ==> devices@ == merged_devices(reports@),
            r matches Err(e) ==> e == first_error(reports@),
    {
        let ghost all = reports@;
        let mut pending = reports;
        let mut devices: Vec<Device> = Vec::new();
        while pending.len() > 0
            invariant
                pending@.len() <= all.len(),
                all.skip(all.len() - pending@.len()) == pending@,
                forall|j: int| 0 <= j < all.len() - pending@.len() ==> report_ok(#[trigger] all[j]),
                devices@ == merged_devices(all.take(all.len() - pending@.len())),
            decreases pending@.len(),
        {
            let ghost k = all.len() - pending@.len();
            let report = pending.remove(0);
            proof {
                assert(report == all[k]);
                assert(all.skip(k).drop_first() =~= all.skip(k + 1));
            }
            match report {
                ChannelReport::Usb(Ok(list)) => {
                    let mut tagged = tag_usb(list);
                    devices.append(&mut tagged);
                },
                ChannelReport::Usb(Err(message)) => {
                    proof {
                        lemma_first_error_at(all, k);
                    }
                    return Err(LedgerUtilityError::Hid(message));
                },
                ChannelReport::Bluetooth(Ok(list)) => {
                    let mut tagged = tag_bluetooth(list);
                    devices.append(&mut tagged);
                },
                ChannelReport::Bluetooth(Err(message)) => {
                    proof {
                        lemma_first_error_at(all, k);
                    }
                    return Err(LedgerUtilityError::Ble(message));
                },
            }
            proof {
                assert(all.take(k + 1) =~= all.take(k).push(all[k]));
                lemma_merged_devices_push(all.take(k), all[k]);
            }
        }
        proof {
            assert(all.take(all.len() as int) =~= all);
        }
        Ok(devices)
    }

    /// Consumes a discovered device and turns the outcome of its channel's
    /// open call into a session.  This is the sole point where a device's
    /// ownership transfers into a session; the session's variant always
    /// matches the device's channel, and a failed open call propagates the
    /// backend's error unchanged.
    pub fn connect(&self, device: Device, opened: OpenReport) -> (r: Result<
        Ledger,
        LedgerUtilityError,
    >)
        requires
            open_report_channel(opened) == device.channel_spec(),
        ensures
            r is Ok <==> open_report_ok(opened),
            r matches Ok(session) ==> session == opened_session(opened),
            r matches Ok(session) ==> session.channel_spec() == device.channel_spec(),
            r matches Err(e) ==> e == open_report_error(opened),
    {
        match (device, opened) {
            (Device::Bluetooth(_), OpenReport::Bluetooth(Ok(transport))) => Ok(
                Ledger::Bluetooth(transport),
            ),
            (Device::Bluetooth(_), OpenReport::Bluetooth(Err(message))) => Err(
                LedgerUtilityError::Ble(message),
            ),
            (Device::Usb(_), OpenReport::Usb(Ok(transport))) => Ok(Ledger::Usb(transport)),
            (Device::Usb(_), OpenReport::Usb(Err(message))) => Err(
                LedgerUtilityError::Hid(message),
            ),
            _ => vstd::pervasive::unreached(),
        }
    }
}

} // verus!
