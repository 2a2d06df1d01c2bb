//! What the library asks of the radio and what the radio answers: the plain
//! values that cross between the decisions made here and the driver that
//! owns the adapter, the peripherals and their connections.

use std::collections::HashMap;
use vstd::prelude::*;

verus! {

/// The manufacturer identifier under which the base stations advertise.
pub const VENDOR_ID: u16 = 0x055d;

/// The control characteristic `00001525-1212-efde-1523-785feabcd124`, as the
/// 128-bit value of that identifier: the one status byte is read from it and
/// written to it.
pub const CONTROL_CHARACTERISTIC: u128 = 0x0000_1525_1212_efde_1523_785f_eabc_d124;

/// Why a request to the radio did not go through.
#[derive(Clone, Copy, Debug, PartialEq, Eq, Structural)]
pub enum Fault {
    /// Scanning could not start, or the event feed could not be had.
    Adapter,
    /// The identifier of an event could not be turned into a peripheral, or the
    /// peripheral could not be asked what it advertises.
    Resolution,
    /// Connecting to the peripheral or disconnecting from it failed.
    Connection,
    /// The peripheral's services could not be enumerated.
    Enumeration,
    /// Reading or writing the control characteristic failed.
    Transport,
}

/// One notification of the adapter's event feed, about the peripheral that
/// the identifier names.
#[derive(Debug, PartialEq, Eq)]
pub enum RadioEvent<I> {
    DeviceDiscovered(I),
    DeviceUpdated(I),
    DeviceConnected(I),
    DeviceDisconnected(I),
    /// Some part of what the peripheral advertises was received again.
    Advertisement(I),
    /// The adapter itself changed state.
    StateUpdate,
}

/// The peripheral that an event brings into view: the one of a discovery or
/// of an update. Every other kind of event brings none.
pub open spec fn announced<I>(event: RadioEvent<I>) -> Option<I> {
    match event {
        RadioEvent::DeviceDiscovered(id) => Some(id),
        RadioEvent::DeviceUpdated(id) => Some(id),
        _ => None,
    }
}

impl<I> RadioEvent<I> {
    /// The identifier of the peripheral to look at, if the event calls for it.
    pub fn announced(self) -> (id: Option<I>)
        ensures
            id == announced(self),
    {
        match self {
            RadioEvent::DeviceDiscovered(id) => Some(id),
            RadioEvent::DeviceUpdated(id) => Some(id),
            _ => None,
        }
    }
}

/// What a peripheral advertises, as far as the library reads it.
#[derive(Debug, PartialEq, Eq)]
pub struct Properties {
    /// The local name, if the peripheral advertises one.
    pub local_name: Option<String>,
    /// The data that it advertises for each manufacturer, by the
    /// manufacturer's identifier.
    pub manufacturer_data: HashMap<u16, Vec<u8>>,
}

/// The name under which a peripheral counts as a base station: its local
/// name, provided that it advertises data of the vendor. A peripheral of
/// another vendor, or one without a name, has none.
pub open spec fn station_name(properties: Properties) -> Option<String> {
    if properties.manufacturer_data@.contains_key(VENDOR_ID) {
        properties.local_name
    } else {
        None
    }
}

impl Properties {
    /// The station's name, if the peripheral is a named base station of the
    /// vendor.
    pub fn station_name(self) -> (name: Option<String>)
        ensures
            name == station_name(self),
    {
        broadcast use vstd::std_specs::hash::group_hash_axioms;

        if self.manufacturer_data.contains_key(&VENDOR_ID) {
            self.local_name
        } else {
            None
        }
    }
}

/// `at` is the first place in `uuids` that holds the control characteristic.
pub open spec fn first_control(uuids: Seq<u128>, at: int) -> bool {
    &&& 0 <= at < uuids.len()
    &&& uuids[at] == CONTROL_CHARACTERISTIC
    &&& forall|k: int| 0 <= k < at ==> uuids[k] != CONTROL_CHARACTERISTIC
}

/// Where the control characteristic stands among the characteristics that a
/// peripheral exposes: the first place that holds it, or `None` if the
/// peripheral does not expose it.
pub open spec fn control_position(uuids: Seq<u128>) -> Option<usize> {
    if uuids.contains(CONTROL_CHARACTERISTIC) {
        Some(choose|at: usize| first_control(uuids, at as int))
    } else {
        None
    }
}

/// Looks for the control characteristic among the identifiers of the
/// characteristics that were enumerated, given in the driver's order.
pub fn find_control(uuids: &Vec<u128>) -> (found: Option<usize>)
    ensures
        found == control_position(uuids@),
        found matches Some(at) ==> first_control(uuids@, at as int),
{
    let mut i: usize = 0;
    while i < uuids.len()
        invariant
            i <= uuids.len(),
            forall|k: int| 0 <= k < i ==> uuids[k] != CONTROL_CHARACTERISTIC,
        decreases uuids.len() - i,
    {
        if uuids[i] == CONTROL_CHARACTERISTIC {
            proof {
                assert(first_control(uuids@, i as int));
                let at = choose|at: usize| first_control(uuids@, at as int);
                assert(at == i);
            }
            return Some(i);
        }
        i += 1;
    }
    None
}

/// One thing for the driver to do on the radio. After `Resolve`, every
/// request up to the next `Resolve` is about the peripheral that it gave.
#[derive(Debug, PartialEq, Eq)]
pub enum Request<I> {
    /// Start scanning, with no restriction on what is scanned for.
    StartScan,
    /// Subscribe to the adapter's event feed.
    Subscribe,
    /// Wait for the next event of the feed.
    NextEvent,
    /// Turn the identifier into a peripheral.
    Resolve(I),
    /// Fetch what the peripheral advertises.
    Properties,
    Connect,
    /// Enumerate the peripheral's services and characteristics.
    DiscoverServices,
    Disconnect,
    /// List the identifiers of the characteristics that were enumerated.
    Characteristics,
    /// Read the characteristic at this place of the list.
    Read { characteristic: usize },
    /// Write the byte to the characteristic at this place of the list, without
    /// asking for a response.
    Write { characteristic: usize, byte: u8 },
}

/// How a request came out.
#[derive(Debug, PartialEq, Eq)]
pub enum Reply<I> {
    /// It went through and hands nothing back.
    Done,
    /// It did not go through.
    Failed,
    /// The next event of the feed, or `None` once the feed has ended.
    Event(Option<RadioEvent<I>>),
    /// What the peripheral advertises, or `None` if nothing is known of it.
    Properties(Option<Properties>),
    /// The identifiers of the enumerated characteristics.
    Characteristics(Vec<u128>),
    /// The bytes that were read.
    Bytes(Vec<u8>),
}

/// `control_position` is the first place that holds the control
/// characteristic, and the only such place, in every list that a `Vec` can
/// hold.
pub proof fn control_position_is_first(uuids: Seq<u128>, at: usize)
    requires
        uuids.len() <= usize::MAX,
    ensures
        control_position(uuids) == Some(at) <==> first_control(uuids, at as int),
        control_position(uuids) is None <==> !uuids.contains(CONTROL_CHARACTERISTIC),
{
    if uuids.contains(CONTROL_CHARACTERISTIC) {
        let some = choose|k: int| 0 <= k < uuids.len() && uuids[k] == CONTROL_CHARACTERISTIC;
        let least = first_among(uuids, some);
        assert(first_control(uuids, least as usize as int));
        let chosen = choose|at: usize| first_control(uuids, at as int);
        assert(chosen == least);
    }
}

/// The first place that holds the control characteristic, given any place
/// that holds it.
proof fn first_among(uuids: Seq<u128>, some: int) -> (least: int)
    requires
        0 <= some < uuids.len(),
        uuids[some] == CONTROL_CHARACTERISTIC,
    ensures
        first_control(uuids, least),
        least <= some,
    decreases some,
{
    if exists|k: int| 0 <= k < some && uuids[k] == CONTROL_CHARACTERISTIC {
        let k = choose|k: int| 0 <= k < some && uuids[k] == CONTROL_CHARACTERISTIC;
        first_among(uuids, k)
    } else {
        some
    }
}

} // verus!
