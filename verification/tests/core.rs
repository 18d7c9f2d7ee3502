//! Naming, discovery merging, connecting, and exchange normalization, on
//! concrete device values.

use ledger_utility::APDUAnswer;
use ledger_utility::BleMetadata;
use ledger_utility::BlePeripheral;
use ledger_utility::BleTransport;
use ledger_utility::Channel;
use ledger_utility::ChannelReport;
use ledger_utility::Connection;
use ledger_utility::Device;
use ledger_utility::ExchangeReport;
use ledger_utility::HidTransport;
use ledger_utility::Ledger;
use ledger_utility::LedgerUtilityError;
use ledger_utility::OpenReport;
use ledger_utility::UsbDeviceInfo;

fn usb(id: u64, product: Option<&str>) -> Device {
    Device::Usb(UsbDeviceInfo {
        id,
        product_string: product.map(|p| p.to_string()),
    })
}

fn ble(id: u64, metadata: Option<Option<&str>>) -> Device {
    Device::Bluetooth(BlePeripheral {
        id,
        metadata: metadata.map(|local_name| BleMetadata {
            local_name: local_name.map(|n| n.to_string()),
        }),
    })
}

#[test]
fn test_usb_name_with_product() {
    let name = usb(1, Some("Nano S")).name().unwrap();
    assert_eq!(name, "Usb: Nano S");
}

#[test]
fn test_usb_name_without_product() {
    let name = usb(1, None).name().unwrap();
    assert_eq!(name, "Usb: ");
}

#[test]
fn test_bluetooth_name_with_local_name() {
    let name = ble(2, Some(Some("Stax"))).name().unwrap();
    assert_eq!(name, "Bluetooth: Stax");
}

#[test]
fn test_bluetooth_name_placeholder_without_local_name() {
    let name = ble(2, Some(None)).name().unwrap();
    assert_eq!(name, "Bluetooth: (peripheral name unknown)");
}

#[test]
fn test_bluetooth_name_fails_without_metadata() {
    let err = ble(2, None).name().unwrap_err();
    assert!(matches!(err, LedgerUtilityError::MetadataUnavailable));
}

#[test]
fn test_names_are_prefix_tagged() {
    let wired = usb(1, Some("Alpha")).name().unwrap();
    let wireless = ble(2, Some(Some("Alpha"))).name().unwrap();
    assert!(wired.starts_with("Usb: "));
    assert!(wireless.starts_with("Bluetooth: "));
    assert_ne!(wired, wireless);
}

#[test]
fn test_new_rejects_empty_channel_list() {
    assert!(Connection::new(vec![]).is_none());
    assert!(Connection::new(vec![Channel::Usb]).is_some());
}

#[test]
fn test_get_all_ledgers() {
    let connection = Connection::new(vec![Channel::Usb, Channel::Bluetooth]).unwrap();
    let reports = vec![
        ChannelReport::Usb(Ok(vec![
            UsbDeviceInfo {
                id: 10,
                product_string: Some("Nano S".to_string()),
            },
            UsbDeviceInfo {
                id: 11,
                product_string: None,
            },
        ])),
        ChannelReport::Bluetooth(Ok(vec![BlePeripheral {
            id: 20,
            metadata: Some(BleMetadata {
                local_name: Some("Stax".to_string()),
            }),
        }])),
    ];
    let ledgers = connection.get_all_ledgers(reports).unwrap();
    for ledger in &ledgers {
        println!("{}", ledger.name().unwrap());
    }
    assert_eq!(ledgers.len(), 3);
}

#[test]
fn test_discover_length_sums_over_channels() {
    let connection = Connection::new(vec![Channel::Usb, Channel::Bluetooth]).unwrap();
    let reports = vec![
        ChannelReport::Usb(Ok(vec![
            UsbDeviceInfo {
                id: 1,
                product_string: None,
            },
            UsbDeviceInfo {
                id: 2,
                product_string: None,
            },
        ])),
        ChannelReport::Bluetooth(Ok(vec![BlePeripheral {
            id: 3,
            metadata: None,
        }])),
    ];
    let devices = connection.get_all_ledgers(reports).unwrap();
    assert_eq!(devices.len(), 2 + 1);
}

#[test]
fn test_discover_preserves_channel_and_backend_order() {
    let connection = Connection::new(vec![Channel::Usb, Channel::Bluetooth]).unwrap();
    let reports = vec![
        ChannelReport::Usb(Ok(vec![
            UsbDeviceInfo {
                id: 10,
                product_string: None,
            },
            UsbDeviceInfo {
                id: 11,
                product_string: None,
            },
        ])),
        ChannelReport::Bluetooth(Ok(vec![BlePeripheral {
            id: 20,
            metadata: None,
        }])),
    ];
    let devices = connection.get_all_ledgers(reports).unwrap();
    let ids: Vec<u64> = devices
        .iter()
        .map(|d| match d {
            Device::Usb(i) => i.id,
            Device::Bluetooth(p) => p.id,
        })
        .collect();
    assert_eq!(ids, vec![10, 11, 20]);
    assert!(matches!(devices[0], Device::Usb(_)));
    assert!(matches!(devices[1], Device::Usb(_)));
    assert!(matches!(devices[2], Device::Bluetooth(_)));
}

#[test]
fn test_discover_fails_when_one_channel_fails() {
    let connection = Connection::new(vec![Channel::Usb, Channel::Bluetooth]).unwrap();
    let reports = vec![
        ChannelReport::Usb(Ok(vec![UsbDeviceInfo {
            id: 1,
            product_string: None,
        }])),
        ChannelReport::Bluetooth(Err("scan failed".to_string())),
    ];
    let err = connection.get_all_ledgers(reports).unwrap_err();
    match err {
        LedgerUtilityError::Ble(m) => assert_eq!(m, "scan failed"),
        other => panic!("wrong error: {:?}", other),
    }
}

#[test]
fn test_discover_reports_first_failing_channel() {
    let connection = Connection::new(vec![Channel::Usb, Channel::Bluetooth]).unwrap();
    let reports = vec![
        ChannelReport::Usb(Err("no hid context".to_string())),
        ChannelReport::Bluetooth(Err("scan failed".to_string())),
    ];
    let err = connection.get_all_ledgers(reports).unwrap_err();
    match err {
        LedgerUtilityError::Hid(m) => assert_eq!(m, "no hid context"),
        other => panic!("wrong error: {:?}", other),
    }
}

#[test]
fn test_connect() {
    let connection = Connection::new(vec![Channel::Usb]).unwrap();
    let reports = vec![ChannelReport::Usb(Ok(vec![UsbDeviceInfo {
        id: 1,
        product_string: Some("Nano S".to_string()),
    }]))];
    let mut ledgers = connection.get_all_ledgers(reports).unwrap();
    if let Some(device) = ledgers.pop() {
        let opened = OpenReport::Usb(Ok(HidTransport { id: 41 }));
        let session = connection.connect(device, opened).unwrap();
        match session {
            Ledger::Usb(t) => assert_eq!(t.id, 41),
            Ledger::Bluetooth(_) => panic!("wired device opened a wireless session"),
        }
    }
}

#[test]
fn test_connect_matches_wireless_variant() {
    let connection = Connection::new(vec![Channel::Bluetooth]).unwrap();
    let device = ble(5, Some(Some("Stax")));
    let opened = OpenReport::Bluetooth(Ok(BleTransport { id: 51 }));
    let session = connection.connect(device, opened).unwrap();
    match session {
        Ledger::Bluetooth(t) => assert_eq!(t.id, 51),
        Ledger::Usb(_) => panic!("wireless device opened a wired session"),
    }
}

#[test]
fn test_connect_failure_propagates_backend_error() {
    let connection = Connection::new(vec![Channel::Usb]).unwrap();
    let device = usb(1, None);
    let opened = OpenReport::Usb(Err("device busy".to_string()));
    let err = connection.connect(device, opened).unwrap_err();
    match err {
        LedgerUtilityError::Hid(m) => assert_eq!(m, "device busy"),
        other => panic!("wrong error: {:?}", other),
    }
}

#[test]
fn test_exchange_passes_answer_through() {
    let session = Ledger::Usb(HidTransport { id: 1 });
    let report = ExchangeReport::Usb(Ok(APDUAnswer {
        retcode: 0x9000,
        data: vec![1, 2, 3],
    }));
    let answer = session.exchange(report).unwrap();
    assert_eq!(answer.retcode, 0x9000);
    assert_eq!(answer.data, vec![1, 2, 3]);
}

#[test]
fn test_exchange_wraps_wireless_error() {
    let session = Ledger::Bluetooth(BleTransport { id: 1 });
    let report = ExchangeReport::Bluetooth(Err("link dropped".to_string()));
    let err = session.exchange(report).unwrap_err();
    match err {
        LedgerUtilityError::Ble(m) => assert_eq!(m, "link dropped"),
        other => panic!("wrong error: {:?}", other),
    }
}

#[test]
fn test_exchange_wraps_wired_error() {
    let session = Ledger::Usb(HidTransport { id: 1 });
    let report = ExchangeReport::Usb(Err("report write failed".to_string()));
    let err = session.exchange(report).unwrap_err();
    match err {
        LedgerUtilityError::Hid(m) => assert_eq!(m, "report write failed"),
        other => panic!("wrong error: {:?}", other),
    }
}
