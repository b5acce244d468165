use desk_shell::bluetooth::BluetoothError;
use desk_shell::bluetooth::DiscoveredDevice;
use desk_shell::bluetooth::RadioKind;
use desk_shell::bluetooth::RadioPower;
use desk_shell::bluetooth::RadioSnapshot;
use desk_shell::bluetooth::devices_from_parts;
use desk_shell::bluetooth::find_bluetooth_radio;
use desk_shell::bluetooth::format_bluetooth_address;
use desk_shell::bluetooth::get_bluetooth_decision;
use desk_shell::bluetooth::set_bluetooth_decision;

fn radio(kind: RadioKind, power: Option<RadioPower>) -> RadioSnapshot {
    RadioSnapshot { kind, power }
}

#[test]
fn finds_the_first_bluetooth_radio() {
    let radios = vec![
        radio(RadioKind::Other, Some(RadioPower::On)),
        radio(RadioKind::Bluetooth, Some(RadioPower::Off)),
        radio(RadioKind::Bluetooth, Some(RadioPower::On)),
    ];
    assert_eq!(find_bluetooth_radio(&radios), Some(1));
    assert_eq!(find_bluetooth_radio(&vec![]), None);
    assert_eq!(find_bluetooth_radio(&vec![radio(RadioKind::Other, None)]), None);
}

#[test]
fn set_decision_denied_access() {
    let radios = vec![radio(RadioKind::Bluetooth, Some(RadioPower::On))];
    let r = set_bluetooth_decision(false, &radios, true);
    let e = r.unwrap_err();
    assert_eq!(e, BluetoothError::WinApi("Radio API access denied".to_string()));
    assert_eq!(e.message(), "Windows API error: Radio API access denied");
}

#[test]
fn set_decision_without_adapter() {
    let radios = vec![radio(RadioKind::Other, None)];
    let r = set_bluetooth_decision(true, &radios, true);
    assert_eq!(r, Err(BluetoothError::NotFound));
    assert_eq!(BluetoothError::NotFound.message(), "Bluetooth adapter not found");
}

#[test]
fn set_decision_targets_the_first_bluetooth_radio() {
    let radios = vec![
        radio(RadioKind::Other, None),
        radio(RadioKind::Bluetooth, Some(RadioPower::On)),
    ];
    assert_eq!(set_bluetooth_decision(true, &radios, false), Ok((1, RadioPower::Off)));
    assert_eq!(set_bluetooth_decision(true, &radios, true), Ok((1, RadioPower::On)));
}

#[test]
fn get_decision_reads_the_first_bluetooth_radio() {
    let on = vec![
        radio(RadioKind::Other, Some(RadioPower::On)),
        radio(RadioKind::Bluetooth, Some(RadioPower::On)),
    ];
    assert_eq!(get_bluetooth_decision(true, &on), Ok(true));

    let off = vec![radio(RadioKind::Bluetooth, Some(RadioPower::Off))];
    assert_eq!(get_bluetooth_decision(true, &off), Ok(false));

    // An unreadable state counts as off.
    let unknown = vec![radio(RadioKind::Bluetooth, None)];
    assert_eq!(get_bluetooth_decision(true, &unknown), Ok(false));

    assert_eq!(get_bluetooth_decision(true, &vec![]), Err(BluetoothError::NotFound));
    assert!(get_bluetooth_decision(false, &on).is_err());
}

#[test]
fn addresses_are_zero_padded_uppercase_hex() {
    assert_eq!(format_bluetooth_address(0), "000000000000");
    assert_eq!(format_bluetooth_address(0x1234), "000000001234");
    assert_eq!(format_bluetooth_address(0xA1B2C3D4E5F6), "A1B2C3D4E5F6");
    assert_eq!(format_bluetooth_address(0x0123456789AB), "0123456789AB");
}

#[test]
fn addresses_match_the_platform_formatting() {
    for v in [0u64, 9, 15, 16, 0xFF, 0xABCDEF, 0xA1B2C3D4E5F6, u64::MAX] {
        assert_eq!(format_bluetooth_address(v), format!("{:012X}", v));
    }
}

#[test]
fn device_list_keeps_names_and_renders_addresses() {
    let parts = vec![
        DiscoveredDevice { name: "Headset".to_string(), address: 0xA1B2C3D4E5F6 },
        DiscoveredDevice { name: "Mouse".to_string(), address: 0x1 },
    ];
    let infos = devices_from_parts(&parts);
    assert_eq!(infos.len(), 2);
    assert_eq!(infos[0].name, "Headset");
    assert_eq!(infos[0].address, "A1B2C3D4E5F6");
    assert_eq!(infos[1].name, "Mouse");
    assert_eq!(infos[1].address, "000000000001");
}
