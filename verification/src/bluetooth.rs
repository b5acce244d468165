//! Bluetooth radio control: which radio a request acts on, what state it is
//! set to, how a state query is answered, and how a device's address is
//! rendered for the UI.
//!
//! The shell performs the radio and device-enumeration calls and hands their
//! results over as plain values; every decision over those values is made
//! and proved here.

use vstd::prelude::*;
use vstd::string::*;

verus! {

/// Errors of the Bluetooth module: no Bluetooth radio present, or a platform
/// call failed.
#[derive(Clone, Debug, PartialEq, Eq)]
pub enum BluetoothError {
    NotFound,
    WinApi(String),
}

impl BluetoothError {
    /// The human-readable message surfaced at the UI boundary.
    pub fn message(&self) -> (r: String)
        ensures
            *self == BluetoothError::NotFound ==> r@ == "Bluetooth adapter not found"@,
            self matches BluetoothError::WinApi(d) ==> r@ == "Windows API error: "@ + d@,
    {
        match self {
            BluetoothError::NotFound => "Bluetooth adapter not found".to_owned(),
            BluetoothError::WinApi(d) => "Windows API error: ".to_owned().concat(d.as_str()),
        }
    }
}

/// What a radio is for, as far as this module cares: Bluetooth or anything
/// else.
#[derive(Clone, Copy, Debug, PartialEq, Eq, Structural)]
pub enum RadioKind {
    Bluetooth,
    Other,
}

/// A radio's power state.
#[derive(Clone, Copy, Debug, PartialEq, Eq, Structural)]
pub enum RadioPower {
    On,
    Off,
}

/// One radio as the shell snapshots it: its kind, and its state where the
/// state could be read (`None` where that query failed; such a radio counts
/// as off, as the UI treats an unknown state).
#[derive(Clone, Copy, Debug, PartialEq, Eq, Structural)]
pub struct RadioSnapshot {
    pub kind: RadioKind,
    pub power: Option<RadioPower>,
}

/// The denied-access message, shared by both radio operations.
pub open spec fn access_denied_msg() -> Seq<char> {
    "Radio API access denied"@
}

/// No radio in the snapshot is a Bluetooth radio.
pub open spec fn no_bluetooth(radios: Seq<RadioSnapshot>) -> bool {
    forall|j: int| 0 <= j < radios.len() ==> (#[trigger] radios[j]).kind != RadioKind::Bluetooth
}

/// Index `i` holds the first Bluetooth radio of the snapshot.
pub open spec fn is_first_bluetooth(radios: Seq<RadioSnapshot>, i: int) -> bool {
    &&& 0 <= i < radios.len()
    &&& radios[i].kind == RadioKind::Bluetooth
    &&& forall|j: int| 0 <= j < i ==> (#[trigger] radios[j]).kind != RadioKind::Bluetooth
}

/// The first Bluetooth radio of the list, if any: requests act on that one,
/// as the platform enumerates radios.
pub fn find_bluetooth_radio(radios: &Vec<RadioSnapshot>) -> (r: Option<usize>)
    ensures
        r matches Some(i) ==> is_first_bluetooth(radios@, i as int),
        r is None ==> no_bluetooth(radios@),
{
    let mut k: usize = 0;
    while k < radios.len()
        invariant
            k <= radios.len(),
            forall|j: int| 0 <= j < k ==> (#[trigger] radios@[j]).kind != RadioKind::Bluetooth,
        decreases radios.len() - k,
    {
        if radios[k].kind == RadioKind::Bluetooth {
            return Some(k);
        }
        k = k + 1;
    }
    None
}

/// The state a set request drives the radio to.
pub fn target_power(on: bool) -> (t: RadioPower)
    ensures
        t == (if on { RadioPower::On } else { RadioPower::Off }),
{
    if on {
        RadioPower::On
    } else {
        RadioPower::Off
    }
}

/// Decides a "set Bluetooth state" request: with access denied it is the
/// access error; with no Bluetooth radio, the not-found error; otherwise
/// the action to take — the index of the first Bluetooth radio, and the
/// state to set it to.
pub fn set_bluetooth_decision(access_allowed: bool, radios: &Vec<RadioSnapshot>, on: bool) -> (r:
    Result<(usize, RadioPower), BluetoothError>)
    ensures
        !access_allowed ==> (r matches Err(e) && e matches BluetoothError::WinApi(m)
            && m@ == access_denied_msg()),
        access_allowed && no_bluetooth(radios@) ==> r == Err::<(usize, RadioPower), _>(
            BluetoothError::NotFound,
        ),
        access_allowed && !no_bluetooth(radios@) ==> (r matches Ok((i, t))
            && is_first_bluetooth(radios@, i as int)
            && t == (if on { RadioPower::On } else { RadioPower::Off })),
{
    if !access_allowed {
        return Err(BluetoothError::WinApi("Radio API access denied".to_owned()));
    }
    match find_bluetooth_radio(radios) {
        Some(i) => Ok((i, target_power(on))),
        None => Err(BluetoothError::NotFound),
    }
}

/// Decides a "get Bluetooth state" query: with access denied it is the
/// access error; with no Bluetooth radio, the not-found error; otherwise
/// whether the first Bluetooth radio is on — a radio whose state could not
/// be read counts as off.
pub fn get_bluetooth_decision(access_allowed: bool, radios: &Vec<RadioSnapshot>) -> (r: Result<
    bool,
    BluetoothError,
>)
    ensures
        !access_allowed ==> (r matches Err(e) && e matches BluetoothError::WinApi(m)
            && m@ == access_denied_msg()),
        access_allowed && no_bluetooth(radios@) ==> r == Err::<bool, _>(BluetoothError::NotFound),
        access_allowed && !no_bluetooth(radios@) ==> (r matches Ok(b) && exists|i: int|
            #[trigger] is_first_bluetooth(radios@, i)
            && b == (radios@[i].power == Some(RadioPower::On))),
{
    if !access_allowed {
        return Err(BluetoothError::WinApi("Radio API access denied".to_owned()));
    }
    match find_bluetooth_radio(radios) {
        Some(i) => {
            let on = match radios[i].power {
                Some(RadioPower::On) => true,
                _ => false,
            };
            assert(is_first_bluetooth(radios@, i as int));
            Ok(on)
        },
        None => Err(BluetoothError::NotFound),
    }
}

/// One discovered device: its display name and its hardware address,
/// rendered as the UI shows it.
#[derive(Clone, Debug, PartialEq, Eq)]
pub struct BluetoothDeviceInfo {
    pub name: String,
    pub address: String,
}

/// One discovered device as the shell hands it over: display name and the
/// raw 48-bit hardware address.
#[derive(Clone, Debug, PartialEq, Eq)]
pub struct DiscoveredDevice {
    pub name: String,
    pub address: u64,
}

/// The uppercase hexadecimal digit for one value below 16.
pub open spec fn hex_digit(d: nat) -> char {
    if d == 0 { '0' }
    else if d == 1 { '1' }
    else if d == 2 { '2' }
    else if d == 3 { '3' }
    else if d == 4 { '4' }
    else if d == 5 { '5' }
    else if d == 6 { '6' }
    else if d == 7 { '7' }
    else if d == 8 { '8' }
    else if d == 9 { '9' }
    else if d == 10 { 'A' }
    else if d == 11 { 'B' }
    else if d == 12 { 'C' }
    else if d == 13 { 'D' }
    else if d == 14 { 'E' }
    else { 'F' }
}

/// The uppercase hexadecimal rendering of a value, without leading zeros
/// (a single zero digit for zero).
pub open spec fn spec_hex(v: nat) -> Seq<char>
    decreases v,
{
    if v < 16 {
        seq![hex_digit(v)]
    } else {
        spec_hex(v / 16) + seq![hex_digit(v % 16)]
    }
}

/// The address rendering the UI shows: uppercase hexadecimal, zero-padded
/// on the left to at least 12 digits.
pub open spec fn spec_address(v: nat) -> Seq<char> {
    if spec_hex(v).len() >= 12 {
        spec_hex(v)
    } else {
        Seq::new((12 - spec_hex(v).len()) as nat, |i: int| '0') + spec_hex(v)
    }
}

/// A one-character string for one hexadecimal digit.
pub fn hex_digit_str(d: u64) -> (s: &'static str)
    requires
        d < 16,
    ensures
        s@ == seq![hex_digit(d as nat)],
{
    proof {
        reveal_strlit("0");
        reveal_strlit("1");
        reveal_strlit("2");
        reveal_strlit("3");
        reveal_strlit("4");
        reveal_strlit("5");
        reveal_strlit("6");
        reveal_strlit("7");
        reveal_strlit("8");
        reveal_strlit("9");
        reveal_strlit("A");
        reveal_strlit("B");
        reveal_strlit("C");
        reveal_strlit("D");
        reveal_strlit("E");
        reveal_strlit("F");
    }
    let s: &'static str = if d == 0 { "0" }
    else if d == 1 { "1" }
    else if d == 2 { "2" }
    else if d == 3 { "3" }
    else if d == 4 { "4" }
    else if d == 5 { "5" }
    else if d == 6 { "6" }
    else if d == 7 { "7" }
    else if d == 8 { "8" }
    else if d == 9 { "9" }
    else if d == 10 { "A" }
    else if d == 11 { "B" }
    else if d == 12 { "C" }
    else if d == 13 { "D" }
    else if d == 14 { "E" }
    else { "F" };
    assert(s@ =~= seq![hex_digit(d as nat)]);
    s
}

/// The uppercase hexadecimal rendering of a value, no padding.
pub fn hex_string(v: u64) -> (r: String)
    ensures
        r@ == spec_hex(v as nat),
    decreases v,
{
    if v < 16 {
        hex_digit_str(v).to_owned()
    } else {
        let rest = hex_string(v / 16);
        rest.concat(hex_digit_str(v % 16))
    }
}

/// The 12-digit zero-padded uppercase hexadecimal rendering of a device
/// address, exactly as the UI lists it.
pub fn format_bluetooth_address(v: u64) -> (r: String)
    ensures
        r@ == spec_address(v as nat),
        r@.len() >= 12,
{
    let digits = hex_string(v);
    let n = digits.as_str().unicode_len();
    let mut r = String::new();
    let mut pad: usize = if n >= 12 {
        0
    } else {
        12 - n
    };
    proof {
        reveal_strlit("0");
    }
    let ghost total_pad: int = pad as int;
    while pad > 0
        invariant
            0 <= pad <= total_pad,
            r@ =~= Seq::new((total_pad - pad) as nat, |i: int| '0'),
        decreases pad,
    {
        r.append("0");
        pad = pad - 1;
        proof {
            reveal_strlit("0");
            assert(r@ =~= Seq::new((total_pad - pad) as nat, |i: int| '0'));
        }
    }
    r.append(digits.as_str());
    proof {
        assert(r@ =~= spec_address(v as nat));
    }
    r
}

/// The device record for one discovered device: the name as reported, the
/// address rendered for the UI.
pub fn device_info(d: &DiscoveredDevice) -> (r: BluetoothDeviceInfo)
    ensures
        r.name == d.name,
        r.address@ == spec_address(d.address as nat),
{
    BluetoothDeviceInfo { name: d.name.clone(), address: format_bluetooth_address(d.address) }
}

/// The full device list handed to the UI: one record per discovered device,
/// in discovery order, each with its rendered address.
pub fn devices_from_parts(parts: &Vec<DiscoveredDevice>) -> (r: Vec<BluetoothDeviceInfo>)
    ensures
        r.len() == parts.len(),
        forall|i: int| 0 <= i < parts.len() ==> {
            &&& (#[trigger] r@[i]).name == parts@[i].name
            &&& r@[i].address@ == spec_address(parts@[i].address as nat)
        },
{
    let mut r: Vec<BluetoothDeviceInfo> = Vec::new();
    let mut k: usize = 0;
    while k < parts.len()
        invariant
            k <= parts.len(),
            r.len() == k,
            forall|i: int| 0 <= i < k ==> {
                &&& (#[trigger] r@[i]).name == parts@[i].name
                &&& r@[i].address@ == spec_address(parts@[i].address as nat)
            },
        decreases parts.len() - k,
    {
        r.push(device_info(&parts[k]));
        k = k + 1;
    }
    r
}

} // verus!
