//! A unified view of a hardware security device reachable over two physical
//! channels — a wired (USB HID) channel and a wireless (Bluetooth LE) channel.
//!
//! The crate verifies the decision core of that design: merging each channel's
//! enumeration results into one device list, deriving channel-tagged display
//! names, resolving a device by name with bounded retries, and the
//! handle-to-session transition.  The channel backends themselves (HID framing,
//! GATT scanning, byte-level protocol encoding) are external collaborators;
//! their outcomes enter the verified core as plain values and every decision
//! taken on those outcomes is proved against its contract.

pub mod connection;
pub mod device;
pub mod error;
pub mod search;
pub mod session;

pub use connection::ChannelReport;
pub use connection::Connection;
pub use connection::OpenReport;
pub use device::BleMetadata;
pub use device::BlePeripheral;
pub use device::Channel;
pub use device::Device;
pub use device::UsbDeviceInfo;
pub use error::LedgerUtilityError;
pub use search::NameSearch;
pub use search::SearchOutcome;
pub use search::SearchStep;
pub use search::SearchVerdict;
pub use session::APDUAnswer;
pub use session::APDUCommand;
pub use session::BleTransport;
pub use session::ExchangeReport;
pub use session::HidTransport;
pub use session::Ledger;
