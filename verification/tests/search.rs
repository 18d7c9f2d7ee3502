//! The connect-by-name retry loop, driven exactly as a hosting layer drives
//! it, with a scripted discovery double that counts its calls.

use ledger_utility::BleMetadata;
use ledger_utility::BlePeripheral;
use ledger_utility::Channel;
use ledger_utility::Connection;
use ledger_utility::Device;
use ledger_utility::LedgerUtilityError;
use ledger_utility::SearchOutcome;
use ledger_utility::SearchStep;
use ledger_utility::UsbDeviceInfo;

fn usb(id: u64, product: &str) -> Device {
    Device::Usb(UsbDeviceInfo {
        id,
        product_string: Some(product.to_string()),
    })
}

/// Drives one whole connect-by-name search against a scripted sequence of
/// discovery outcomes, counting how many discovery calls were made.
fn drive(
    connection: &Connection,
    name: &str,
    retries: u8,
    script: Vec<Result<Vec<Device>, LedgerUtilityError>>,
) -> (Result<Device, LedgerUtilityError>, usize) {
    let mut search = connection.connect_with_name(name.to_string(), retries);
    let mut discovery_calls = 0;
    let mut script = script.into_iter();
    loop {
        match search.next_step() {
            SearchStep::GiveUp => {
                return (Err(LedgerUtilityError::DeviceNotFound), discovery_calls);
            }
            SearchStep::Discover => {
                discovery_calls += 1;
                let outcome = script.next().expect("search made more discovery calls than scripted");
                match search.on_discovery(outcome) {
                    SearchOutcome::Connect(device) => return (Ok(device), discovery_calls),
                    SearchOutcome::Abort(e) => return (Err(e), discovery_calls),
                    SearchOutcome::Retry => {}
                }
            }
        }
    }
}

fn connection() -> Connection {
    Connection::new(vec![Channel::Usb, Channel::Bluetooth]).unwrap()
}

#[test]
fn test_zero_retries_fails_without_discovery() {
    let (result, discovery_calls) = drive(&connection(), "Usb: Nano S", 0, vec![]);
    assert!(matches!(result, Err(LedgerUtilityError::DeviceNotFound)));
    assert_eq!(discovery_calls, 0);
}

#[test]
fn test_first_snapshot_match_spends_one_attempt() {
    let script = vec![Ok(vec![usb(1, "Nano S"), usb(2, "Nano X")])];
    let (result, discovery_calls) = drive(&connection(), "Usb: Nano X", 5, script);
    match result.unwrap() {
        Device::Usb(i) => assert_eq!(i.id, 2),
        Device::Bluetooth(_) => panic!("matched the wrong channel"),
    }
    assert_eq!(discovery_calls, 1);
}

#[test]
fn test_not_found_after_all_attempts_miss() {
    let script = vec![
        Ok(vec![usb(1, "Nano S")]),
        Ok(vec![usb(1, "Nano S")]),
    ];
    let (result, discovery_calls) = drive(&connection(), "Usb: Nano X", 2, script);
    assert!(matches!(result, Err(LedgerUtilityError::DeviceNotFound)));
    assert_eq!(discovery_calls, 2);
}

#[test]
fn test_late_match_is_not_device_not_found() {
    let script = vec![
        Ok(vec![]),
        Ok(vec![usb(7, "Nano S")]),
    ];
    let (result, discovery_calls) = drive(&connection(), "Usb: Nano S", 3, script);
    match result.unwrap() {
        Device::Usb(i) => assert_eq!(i.id, 7),
        Device::Bluetooth(_) => panic!("matched the wrong channel"),
    }
    assert_eq!(discovery_calls, 2);
}

#[test]
fn test_selects_first_of_two_wired_devices() {
    let script = vec![Ok(vec![usb(1, "Alpha"), usb(2, "Beta")])];
    let (result, discovery_calls) = drive(&connection(), "Usb: Alpha", 1, script);
    match result.unwrap() {
        Device::Usb(i) => {
            assert_eq!(i.id, 1);
            assert_eq!(i.product_string.as_deref(), Some("Alpha"));
        }
        Device::Bluetooth(_) => panic!("matched the wrong channel"),
    }
    assert_eq!(discovery_calls, 1);
}

#[test]
fn test_no_devices_fails_after_exactly_three_attempts() {
    let script = vec![Ok(vec![]), Ok(vec![]), Ok(vec![])];
    let (result, discovery_calls) = drive(&connection(), "anything", 3, script);
    assert!(matches!(result, Err(LedgerUtilityError::DeviceNotFound)));
    assert_eq!(discovery_calls, 3);
}

#[test]
fn test_backend_failure_aborts_remaining_attempts() {
    let script = vec![
        Ok(vec![]),
        Err(LedgerUtilityError::Ble("radio lost".to_string())),
        Ok(vec![usb(1, "Nano S")]),
    ];
    let (result, discovery_calls) = drive(&connection(), "Usb: Nano S", 3, script);
    match result.unwrap_err() {
        LedgerUtilityError::Ble(m) => assert_eq!(m, "radio lost"),
        other => panic!("wrong error: {:?}", other),
    }
    assert_eq!(discovery_calls, 2);
}

#[test]
fn test_unnameable_device_aborts_the_search() {
    let script = vec![Ok(vec![Device::Bluetooth(BlePeripheral {
        id: 1,
        metadata: None,
    })])];
    let (result, discovery_calls) = drive(&connection(), "Bluetooth: Stax", 2, script);
    assert!(matches!(
        result,
        Err(LedgerUtilityError::MetadataUnavailable)
    ));
    assert_eq!(discovery_calls, 1);
}

#[test]
fn test_match_is_case_sensitive() {
    let script = vec![Ok(vec![usb(1, "Alpha")]), Ok(vec![usb(1, "Alpha")])];
    let (result, discovery_calls) = drive(&connection(), "usb: alpha", 2, script);
    assert!(matches!(result, Err(LedgerUtilityError::DeviceNotFound)));
    assert_eq!(discovery_calls, 2);
}

#[test]
fn test_wireless_placeholder_name_can_be_matched() {
    let script = vec![Ok(vec![Device::Bluetooth(BlePeripheral {
        id: 9,
        metadata: Some(BleMetadata { local_name: None }),
    })])];
    let (result, _) = drive(
        &connection(),
        "Bluetooth: (peripheral name unknown)",
        1,
        script,
    );
    match result.unwrap() {
        Device::Bluetooth(p) => assert_eq!(p.id, 9),
        Device::Usb(_) => panic!("matched the wrong channel"),
    }
}
