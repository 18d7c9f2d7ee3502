//! Connected sessions: a tagged union over the two channels' open transport
//! handles, and the unified exchange operation.
//!
//! The wire work of an exchange — framing the request onto HID reports or
//! GATT characteristics and collecting the reply — belongs to the channel
//! backends.  The verified part is the dispatch discipline around it: a
//! session tells its caller which channel primitive to invoke, and
//! `Ledger::exchange` normalizes that primitive's outcome, passing a reply
//! through unchanged and wrapping the channel's error into the unified
//! taxonomy.  No retries and no timeouts are added at this layer.

use vstd::prelude::*;

use crate::device::Channel;
use crate::error::LedgerUtilityError;

verus! {

/// An application-level request unit: opcode and instruction fields plus a
/// variable-length payload.  Byte layout onto the wire is the backends' job.
#[derive(Debug)]
pub struct APDUCommand {
    pub cla: u8,
    pub ins: u8,
    pub p1: u8,
    pub p2: u8,
    pub data: Vec<u8>,
}

/// The matching response unit: a status indicator plus a variable-length
/// payload.
#[derive(Debug)]
pub struct APDUAnswer {
    pub retcode: u16,
    pub data: Vec<u8>,
}

/// An open wireless transport, held exclusively by one session.  The `id`
/// is the identity token by which the hosting layer finds the native
/// transport again.
#[derive(Debug)]
pub struct BleTransport {
    pub id: u64,
}

/// An open wired transport, held exclusively by one session.
#[derive(Debug)]
pub struct HidTransport {
    pub id: u64,
}

/// A connected session: the exclusive owner of one open channel transport.
/// Created only by `Connection::connect`; dropping it is the only release
/// path.
#[derive(Debug)]
pub enum Ledger {
    Bluetooth(BleTransport),
    Usb(HidTransport),
}

/// What one channel's exchange primitive reported back: either a response
/// unit or the channel's own error text.
#[derive(Debug)]
pub enum ExchangeReport {
    Bluetooth(Result<APDUAnswer, String>),
    Usb(Result<APDUAnswer, String>),
}

/// The channel whose primitive produced this report.
pub open spec fn exchange_report_channel(r: ExchangeReport) -> Channel {
    match r {
        ExchangeReport::Bluetooth(_) => Channel::Bluetooth,
        ExchangeReport::Usb(_) => Channel::Usb,
    }
}

impl Ledger {
    /// The channel this session communicates over.
    pub open spec fn channel_spec(self) -> Channel {
        match self {
            Ledger::Bluetooth(_) => Channel::Bluetooth,
            Ledger::Usb(_) => Channel::Usb,
        }
    }

    /// The channel this session communicates over, and so the exchange
    /// primitive the hosting layer must invoke for it.
    pub fn channel(&self) -> (c: Channel)
        ensures
            c == self.channel_spec(),
    {
        match self {
            Ledger::Bluetooth(_) => Channel::Bluetooth,
            Ledger::Usb(_) => Channel::Usb,
        }
    }

    /// Normalizes the outcome of this session's own channel primitive: a
    /// reply passes through unchanged, a failure is wrapped into the unified
    /// error for that channel and propagates immediately.
    pub fn exchange(&self, report: ExchangeReport) -> (r: Result<APDUAnswer, LedgerUtilityError>)
        requires
            exchange_report_channel(report) == self.channel_spec(),
        ensures
            report matches ExchangeReport::Bluetooth(Ok(a)) ==> r == Ok::<APDUAnswer, LedgerUtilityError>(a),
            report matches ExchangeReport::Usb(Ok(a)) ==> r == Ok::<APDUAnswer, LedgerUtilityError>(a),
            report matches ExchangeReport::Bluetooth(Err(m)) ==> r == Err::<APDUAnswer, LedgerUtilityError>(LedgerUtilityError::Ble(m)),
            report matches ExchangeReport::Usb(Err(m)) ==> r == Err::<APDUAnswer, LedgerUtilityError>(LedgerUtilityError::Hid(m)),
    {
        match report {
            ExchangeReport::Bluetooth(Ok(answer)) => Ok(answer),
            ExchangeReport::Bluetooth(Err(message)) => Err(LedgerUtilityError::Ble(message)),
            ExchangeReport::Usb(Ok(answer)) => Ok(answer),
            ExchangeReport::Usb(Err(message)) => Err(LedgerUtilityError::Hid(message)),
        }
    }
}

} // verus!
