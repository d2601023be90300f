//! The set of devices found on the host.
//!
//! Devices are found either from the records that sysfs keeps of them or by
//! walking the device nodes under `/dev/bus/usb`. Either way the enumerator
//! is handed what was read and builds the device records. It keeps them in
//! a map from place to device, so it holds at most one device for each pair
//! of bus number and device address, and a device found again takes the
//! place of the one found before.
use super::usb_device::{UsbDevice, UsbDeviceView};
use crate::error::UsbError;
use std::collections::HashMap;
use vstd::prelude::*;

verus! {

/// What sysfs tells about one device.
#[derive(Debug, Clone, PartialEq, Eq)]
pub struct SysfsUsbDevice {
    pub bus_num: u8,
    pub dev_num: u8,
    pub manufacturer: String,
    pub product: String,
    pub serial: String,
    pub descriptors: Vec<u8>,
}

/// What a [`SysfsUsbDevice`] holds, as a mathematical value.
pub struct SysfsUsbDeviceView {
    pub bus_num: u8,
    pub dev_num: u8,
    pub manufacturer: Seq<char>,
    pub product: Seq<char>,
    pub serial: Seq<char>,
    pub descriptors: Seq<u8>,
}

impl View for SysfsUsbDevice {
    type V = SysfsUsbDeviceView;

    open spec fn view(&self) -> SysfsUsbDeviceView {
        SysfsUsbDeviceView {
            bus_num: self.bus_num,
            dev_num: self.dev_num,
            manufacturer: self.manufacturer@,
            product: self.product@,
            serial: self.serial@,
            descriptors: self.descriptors@,
        }
    }
}

impl SysfsUsbDeviceView {
    /// The device that the record describes: the tree of its descriptor
    /// bytes, with place and strings as sysfs gives them.
    pub open spec fn device(self) -> Result<UsbDeviceView, UsbError> {
        match UsbDevice::parse(self.descriptors) {
            Ok(d) => Ok(
                UsbDeviceView {
                    bus_num: self.bus_num,
                    dev_num: self.dev_num,
                    manufacturer: self.manufacturer,
                    product: self.product,
                    serial: self.serial,
                    device: d.device,
                },
            ),
            Err(e) => Err(e),
        }
    }
}

/// A run of sysfs records as mathematical values.
pub open spec fn records_view(records: Seq<SysfsUsbDevice>) -> Seq<SysfsUsbDeviceView> {
    records.map_values(|r: SysfsUsbDevice| r@)
}

/// The key under which the device at bus `bus`, address `address` is kept:
/// the bus number in the high byte and the address in the low byte. It
/// stands for the place as the text `bus-address` would, and no two places
/// share a key.
pub open spec fn spec_place_key(bus: u8, address: u8) -> u16 {
    (bus as int * 256 + address as int) as u16
}

/// The key under which the device at bus `bus`, address `address` is kept.
#[verifier::when_used_as_spec(spec_place_key)]
pub fn place_key(bus: u8, address: u8) -> (key: u16)
    ensures
        key == spec_place_key(bus, address),
{
    bus as u16 * 256 + address as u16
}

/// Whether `device` sits at bus `bus`, address `address`.
pub open spec fn sits_at(device: UsbDeviceView, bus: u8, address: u8) -> bool {
    device.bus_num == bus && device.dev_num == address
}

/// Every device of `devices` is kept under the key of the place where it
/// sits.
pub open spec fn sited(devices: Map<u16, UsbDeviceView>) -> bool {
    forall|key: u16| #[trigger]
        devices.contains_key(key) ==> spec_place_key(devices[key].bus_num, devices[key].dev_num) == key
}

/// `devices` with `device` taken in: it is kept under the key of its place,
/// where it takes the place of a device that was kept there before.
pub open spec fn inserted(devices: Map<u16, UsbDeviceView>, device: UsbDeviceView) -> Map<u16, UsbDeviceView> {
    devices.insert(spec_place_key(device.bus_num, device.dev_num), device)
}

/// The devices after every record of `records` was taken in, in order, or
/// the error of the first record whose descriptor bytes do not parse.
pub open spec fn enumerated(devices: Map<u16, UsbDeviceView>, records: Seq<SysfsUsbDeviceView>) -> Result<
    Map<u16, UsbDeviceView>,
    UsbError,
>
    decreases records.len(),
{
    if records.len() == 0 {
        Ok(devices)
    } else {
        match records[0].device() {
            Ok(d) => enumerated(inserted(devices, d), records.skip(1)),
            Err(e) => Err(e),
        }
    }
}

/// Two places with the same key are the same place.
pub proof fn lemma_place_key_injective(bus: u8, address: u8, other_bus: u8, other_address: u8)
    requires
        spec_place_key(bus, address) == spec_place_key(other_bus, other_address),
    ensures
        bus == other_bus,
        address == other_address,
{
}

/// Where every device is kept under the key of its place, the device found
/// under the key of a place sits at that place.
pub proof fn lemma_sited_lookup(devices: Map<u16, UsbDeviceView>, bus: u8, address: u8)
    requires
        sited(devices),
        devices.contains_key(spec_place_key(bus, address)),
    ensures
        sits_at(devices[spec_place_key(bus, address)], bus, address),
{
    let found = devices[spec_place_key(bus, address)];
    lemma_place_key_injective(found.bus_num, found.dev_num, bus, address);
}

/// Taking a device in keeps every device under the key of its place, and the
/// device taken in is then found at its place.
pub proof fn lemma_inserted_sited(devices: Map<u16, UsbDeviceView>, device: UsbDeviceView)
    requires
        sited(devices),
    ensures
        sited(inserted(devices, device)),
        inserted(devices, device).contains_key(spec_place_key(device.bus_num, device.dev_num)),
        inserted(devices, device)[spec_place_key(device.bus_num, device.dev_num)] == device,
{
}

/// Taking records in keeps every device under the key of its place.
pub proof fn lemma_enumerated_sited(devices: Map<u16, UsbDeviceView>, records: Seq<SysfsUsbDeviceView>)
    requires
        sited(devices),
    ensures
        enumerated(devices, records) matches Ok(found) ==> sited(found),
    decreases records.len(),
{
    if records.len() > 0 {
        if let Ok(d) = records[0].device() {
            lemma_inserted_sited(devices, d);
            lemma_enumerated_sited(inserted(devices, d), records.skip(1));
        }
    }
}

/// The devices found on the host, each kept under the key of its place.
#[derive(Debug)]
pub struct UsbEnumerate {
    devices: HashMap<u16, UsbDevice>,
}

impl Default for UsbEnumerate {
    /// An enumerator that holds no device.
    fn default() -> (e: Self)
        ensures
            e@ == Map::<u16, UsbDeviceView>::empty(),
    {
        Self::new()
    }
}

impl View for UsbEnumerate {
    type V = Map<u16, UsbDeviceView>;

    closed spec fn view(&self) -> Map<u16, UsbDeviceView> {
        self.devices@.map_values(|d: UsbDevice| d@)
    }
}

impl UsbEnumerate {
    /// An enumerator that holds no device.
    pub fn new() -> (e: Self)
        ensures
            e@ == Map::<u16, UsbDeviceView>::empty(),
    {
        let e = UsbEnumerate { devices: HashMap::new() };
        assert(e@ =~= Map::empty());
        e
    }

    /// Takes `device` in under the key of its place, where it takes the
    /// place of a device that was kept there before.
    pub fn insert(&mut self, device: UsbDevice)
        ensures
            final(self)@ == inserted(old(self)@, device@),
    {
        broadcast use vstd::std_specs::hash::group_hash_axioms;

        let key = place_key(device.bus_num, device.dev_num);
        self.devices.insert(key, device);
        assert(self@ =~= inserted(old(self)@, device@));
    }

    /// Builds the enumerator from the records that sysfs keeps of the
    /// attached devices, taken in in the order given.
    ///
    /// Fails with the error of the first record whose descriptor bytes do
    /// not parse.
    pub fn from_sysfs(records: Vec<SysfsUsbDevice>) -> (r: Result<Self, UsbError>)
        ensures
            match enumerated(Map::empty(), records_view(records@)) {
                Ok(devices) => r is Ok && r->Ok_0@ == devices,
                Err(e) => r is Err && r->Err_0 == e,
            },
    {
        let mut en = Self::new();
        let ghost all = records_view(records@);
        assert(all.skip(0) =~= all);
        for record in it: records
            invariant
                it.seq() == records@,
                all == records_view(records@),
                enumerated(en@, all.skip(it.index() as int)) == enumerated(Map::empty(), all),
        {
            proof {
                let rest = all.skip(it.index() as int);
                assert(rest.skip(1) =~= all.skip(it.index() + 1));
            }
            let SysfsUsbDevice { bus_num, dev_num, manufacturer, product, serial, descriptors } = record;
            let mut dev = match UsbDevice::from_bytes(descriptors) {
                Ok(dev) => dev,
                Err(e) => { return Err(e); },
            };
            dev.product = product;
            dev.manufacturer = manufacturer;
            dev.serial = serial;
            dev.bus_num = bus_num;
            dev.dev_num = dev_num;
            en.insert(dev);
        }
        Ok(en)
    }

    /// Takes in the device whose node at `bus`, `address` gave the
    /// descriptor bytes `bytes`.
    ///
    /// Fails with [`UsbError::ParseError`], and takes nothing in, where the
    /// bytes do not parse.
    pub fn add_device(&mut self, bus: u8, address: u8, bytes: Vec<u8>) -> (r: Result<(), UsbError>)
        ensures
            match UsbDevice::parse(bytes@) {
                Ok(d) => r is Ok && final(self)@ == inserted(
                    old(self)@,
                    UsbDeviceView { bus_num: bus, dev_num: address, ..d },
                ),
                Err(e) => r == Err::<(), UsbError>(e) && final(self)@ == old(self)@,
            },
    {
        let mut dev = match UsbDevice::from_bytes(bytes) {
            Ok(dev) => dev,
            Err(e) => { return Err(e); },
        };
        dev.bus_num = bus;
        dev.dev_num = address;
        self.insert(dev);
        Ok(())
    }

    /// The devices that were found, each under the key of its place.
    pub fn devices(&self) -> (d: &HashMap<u16, UsbDevice>)
        ensures
            d@.map_values(|x: UsbDevice| x@) == self@,
    {
        &self.devices
    }

    /// The device kept for bus `bus`, address `address`, if one was found
    /// there.
    pub fn get_device_from_bus(&self, bus: u8, address: u8) -> (r: Option<&UsbDevice>)
        ensures
            match r {
                Some(d) => self@.contains_key(spec_place_key(bus, address)) && self@[spec_place_key(bus, address)]
                    == d@,
                None => !self@.contains_key(spec_place_key(bus, address)),
            },
    {
        broadcast use vstd::std_specs::hash::group_hash_axioms;

        let key = place_key(bus, address);
        self.devices.get(&key)
    }
}

/// The number that a run of ASCII decimal digits spells.
pub open spec fn decimal_value(digits: Seq<u8>) -> nat
    decreases digits.len(),
{
    if digits.len() == 0 {
        0
    } else {
        (10 * decimal_value(digits.drop_last()) + (digits.last() - 48)) as nat
    }
}

/// Whether every byte of `s` is an ASCII decimal digit.
pub open spec fn all_digits(s: Seq<u8>) -> bool {
    forall|i: int| 0 <= i < s.len() ==> 48 <= #[trigger] s[i] <= 57
}

/// The digits of a node name: the name without a leading plus sign.
pub open spec fn name_digits(name: Seq<u8>) -> Seq<u8> {
    if name.len() > 0 && name[0] == 43 {
        name.skip(1)
    } else {
        name
    }
}

/// The bus number or device address that the name of a directory or node
/// under `/dev/bus/usb` spells: a run of one or more decimal digits, which a
/// plus sign may lead, with a value of at most 255. Any other name spells
/// none.
pub open spec fn node_number(name: Seq<u8>) -> Option<u8> {
    let digits = name_digits(name);
    if digits.len() > 0 && all_digits(digits) && decimal_value(digits) <= 255 {
        Some(decimal_value(digits) as u8)
    } else {
        None
    }
}

/// A run of digits spells at least what any of its prefixes spells.
proof fn lemma_decimal_value_grows(digits: Seq<u8>, k: int)
    requires
        all_digits(digits),
        0 <= k <= digits.len(),
    ensures
        decimal_value(digits.take(k)) <= decimal_value(digits),
    decreases digits.len(),
{
    if k == digits.len() {
        assert(digits.take(k) =~= digits);
    } else {
        let front = digits.drop_last();
        assert(all_digits(front));
        lemma_decimal_value_grows(front, k);
        assert(front.take(k) =~= digits.take(k));
    }
}

/// Reads the bus number or device address that a name under `/dev/bus/usb`
/// spells, as [`node_number`] says.
pub fn parse_node_name(name: &[u8]) -> (r: Option<u8>)
    ensures
        r == node_number(name@),
{
    let start: usize = if name.len() > 0 && name[0] == 43 {
        1
    } else {
        0
    };
    let ghost digits = name_digits(name@);
    if name.len() == start {
        return None;
    }
    let mut value: u32 = 0;
    let mut i: usize = start;
    while i < name.len()
        invariant
            start <= i <= name@.len(),
            digits == name_digits(name@),
            digits == name@.skip(start as int),
            all_digits(digits.take(i - start)),
            value == decimal_value(digits.take(i - start)),
            value <= 255,
        decreases name@.len() - i,
    {
        let c = name[i];
        if c < 48 || c > 57 {
            assert(!all_digits(digits)) by {
                assert(digits[i - start] == c);
            }
            return None;
        }
        let ghost next = digits.take(i - start + 1);
        assert(next.drop_last() =~= digits.take(i - start));
        assert(all_digits(next));
        value = value * 10 + (c - 48) as u32;
        if value > 255 {
            proof {
                if all_digits(digits) {
                    lemma_decimal_value_grows(digits, i - start + 1);
                }
            }
            return None;
        }
        i += 1;
    }
    assert(digits.take(i - start) =~= digits);
    Some(value as u8)
}

} // verus!
