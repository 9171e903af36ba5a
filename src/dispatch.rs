use vstd::prelude::*;

use crate::errors::Errors;
use crate::owned::{copy_bytes, copy_string, text};

verus! {

/// A property list value, as the protocol's payloads carry it. A dictionary keeps
/// its entries in insertion order.
#[derive(Debug)]
pub enum Value {
    Str(String),
    UInt(u64),
    Data(Vec<u8>),
    Array(Vec<Value>),
    Dict(Vec<(String, Value)>),
}

/// An IP address, as its octets.
#[derive(Debug, Clone, Copy)]
pub enum IpAddress {
    V4([u8; 4]),
    V6([u8; 16]),
}

/// The two requests that are served.
#[derive(Debug, Clone, Copy, PartialEq, Eq, Structural)]
pub enum Request {
    ListDevices,
    ReadPairRecord,
}

/// The pairing record that the server was started with: its `UDID` and its
/// canonical text form.
#[derive(Debug)]
pub struct PairingRecord {
    pub udid: String,
    pub text: Vec<u8>,
}

/// Identifier given to the one device that is listed.
pub const DEVICE_ID: u64 = 420;

/// Interface index reported for the listed device.
pub const INTERFACE_INDEX: u64 = 69;

/// Length of the socket address blob reported as the device's network address.
pub const NETWORK_ADDRESS_LEN: usize = 152;

/// The value stored under `key` by the first entry that has it.
pub open spec fn lookup(entries: Seq<(String, Value)>, key: Seq<char>) -> Option<Value>
    decreases entries.len(),
{
    if entries.len() == 0 {
        None
    } else if entries[0].0@ == key {
        Some(entries[0].1)
    } else {
        lookup(entries.drop_first(), key)
    }
}

/// The string under `key` in a dictionary value, if there is one.
pub open spec fn string_entry(v: Value, key: Seq<char>) -> Option<Seq<char>> {
    match v {
        Value::Dict(entries) => match lookup(entries@, key) {
            Some(Value::Str(s)) => Some(s@),
            _ => None,
        },
        _ => None,
    }
}

/// The request named by the `MessageType` string of a payload.
pub open spec fn request_of(v: Value) -> Result<Request, Errors> {
    match string_entry(v, "MessageType"@) {
        None => Err(Errors::ProtocolDecode),
        Some(s) => if s == "ListDevices"@ {
            Ok(Request::ListDevices)
        } else if s == "ReadPairRecord"@ {
            Ok(Request::ReadPairRecord)
        } else {
            Err(Errors::UnsupportedMessage)
        },
    }
}

/// The 152 bytes that describe `ip` as a socket address: a family tag, the
/// octets (at 4 for IPv4, at 16 for IPv6), and zeros elsewhere.
pub open spec fn network_address_bytes(ip: IpAddress) -> Seq<u8> {
    Seq::new(
        NETWORK_ADDRESS_LEN as nat,
        |i: int|
            match ip {
                IpAddress::V4(o) => if i == 0 {
                    10u8
                } else if i == 1 {
                    0x02u8
                } else if 4 <= i < 8 {
                    o@[i - 4]
                } else {
                    0u8
                },
                IpAddress::V6(o) => if i == 0 {
                    28u8
                } else if i == 1 {
                    0x1eu8
                } else if 16 <= i < 32 {
                    o@[i - 16]
                } else {
                    0u8
                },
            },
    )
}

/// The address reported for the listed device, 10.7.0.1.
pub open spec fn device_ip() -> IpAddress {
    IpAddress::V4([10u8, 7u8, 0u8, 1u8])
}

pub open spec fn is_entry(e: (String, Value), key: Seq<char>) -> bool {
    e.0@ == key
}

pub open spec fn is_str(v: Value, s: Seq<char>) -> bool {
    match v {
        Value::Str(x) => x@ == s,
        _ => false,
    }
}

pub open spec fn is_uint(v: Value, n: u64) -> bool {
    match v {
        Value::UInt(x) => x == n,
        _ => false,
    }
}

pub open spec fn is_data(v: Value, d: Seq<u8>) -> bool {
    match v {
        Value::Data(x) => x@ == d,
        _ => false,
    }
}

/// The `Properties` dictionary of the listed device.
pub open spec fn is_device_properties(v: Value, udid: Seq<char>) -> bool {
    match v {
        Value::Dict(p) => {
            &&& p@.len() == 6
            &&& is_entry(p@[0], "ConnectionType"@) && is_str(p@[0].1, "Network"@)
            &&& is_entry(p@[1], "DeviceID"@) && is_uint(p@[1].1, DEVICE_ID)
            &&& is_entry(p@[2], "EscapedFullServiceName"@) && is_str(p@[2].1, "yurmomlolllllll"@)
            &&& is_entry(p@[3], "InterfaceIndex"@) && is_uint(p@[3].1, INTERFACE_INDEX)
            &&& is_entry(p@[4], "NetworkAddress"@) && is_data(
                p@[4].1,
                network_address_bytes(device_ip()),
            )
            &&& is_entry(p@[5], "SerialNumber"@) && is_str(p@[5].1, udid)
        },
        _ => false,
    }
}

/// The one element of the device list.
pub open spec fn is_attached_device(v: Value, udid: Seq<char>) -> bool {
    match v {
        Value::Dict(d) => {
            &&& d@.len() == 3
            &&& is_entry(d@[0], "DeviceID"@) && is_uint(d@[0].1, DEVICE_ID)
            &&& is_entry(d@[1], "MessageType"@) && is_str(d@[1].1, "Attached"@)
            &&& is_entry(d@[2], "Properties"@) && is_device_properties(d@[2].1, udid)
        },
        _ => false,
    }
}

/// The answer to `ListDevices`: one attached device whose serial number is `udid`.
pub open spec fn is_device_list(v: Value, udid: Seq<char>) -> bool {
    match v {
        Value::Dict(e) => {
            &&& e@.len() == 1
            &&& is_entry(e@[0], "DeviceList"@)
            &&& match e@[0].1 {
                Value::Array(a) => a@.len() == 1 && is_attached_device(a@[0], udid),
                _ => false,
            }
        },
        _ => false,
    }
}

/// The answer to `ReadPairRecord`: the pairing record's text as bytes.
pub open spec fn is_pair_record_data(v: Value, text: Seq<u8>) -> bool {
    match v {
        Value::Dict(e) => e@.len() == 1 && is_entry(e@[0], "PairRecordData"@) && is_data(
            e@[0].1,
            text,
        ),
        _ => false,
    }
}

/// The socket address blob for `ip`.
pub fn network_address(ip: IpAddress) -> (r: Vec<u8>)
    ensures
        r@ == network_address_bytes(ip),
{
    let mut data: Vec<u8> = Vec::new();
    let mut i: usize = 0;
    while i < NETWORK_ADDRESS_LEN
        invariant
            i <= NETWORK_ADDRESS_LEN,
            data@.len() == i,
            forall|j: int| 0 <= j < i ==> data@[j] == 0u8,
        decreases NETWORK_ADDRESS_LEN - i,
    {
        data.push(0u8);
        i += 1;
    }
    match ip {
        IpAddress::V4(octets) => {
            data.set(0, 10u8);
            data.set(1, 0x02u8);
            let mut k: usize = 0;
            while k < 4
                invariant
                    k <= 4,
                    data@.len() == NETWORK_ADDRESS_LEN,
                    forall|j: int|
                        0 <= j < NETWORK_ADDRESS_LEN && !(4 <= j < 8) ==> data@[j]
                            == network_address_bytes(ip)[j],
                    forall|j: int| 4 <= j < 4 + k ==> data@[j] == octets@[j - 4],
                decreases 4 - k,
            {
                data.set(4 + k, octets[k]);
                k += 1;
            }
        },
        IpAddress::V6(octets) => {
            data.set(0, 28u8);
            data.set(1, 0x1eu8);
            let mut k: usize = 0;
            while k < 16
                invariant
                    k <= 16,
                    data@.len() == NETWORK_ADDRESS_LEN,
                    forall|j: int|
                        0 <= j < NETWORK_ADDRESS_LEN && !(16 <= j < 32) ==> data@[j]
                            == network_address_bytes(ip)[j],
                    forall|j: int| 16 <= j < 16 + k ==> data@[j] == octets@[j - 16],
                decreases 16 - k,
            {
                data.set(16 + k, octets[k]);
                k += 1;
            }
        },
    }
    assert(data@ =~= network_address_bytes(ip));
    data
}

/// The value stored under `key` in `entries`, by the first entry that has it.
pub fn dict_get<'a>(entries: &'a Vec<(String, Value)>, key: &String) -> (r: Option<&'a Value>)
    ensures
        match r {
            Some(v) => lookup(entries@, key@) == Some(*v),
            None => lookup(entries@, key@).is_none(),
        },
{
    let mut i: usize = 0;
    assert(entries@.subrange(0, entries@.len() as int) =~= entries@);
    while i < entries.len()
        invariant
            i <= entries@.len(),
            lookup(entries@, key@) == lookup(entries@.subrange(i as int, entries@.len() as int), key@),
        decreases entries@.len() - i,
    {
        let ghost rest = entries@.subrange(i as int, entries@.len() as int);
        assert(rest.drop_first() =~= entries@.subrange(i + 1, entries@.len() as int));
        if entries[i].0 == *key {
            return Some(&entries[i].1);
        }
        i += 1;
    }
    None
}

/// The string under `key` in a dictionary value.
fn get_string<'a>(v: &'a Value, key: &String) -> (r: Option<&'a String>)
    ensures
        match r {
            Some(s) => string_entry(*v, key@) == Some(s@),
            None => string_entry(*v, key@).is_none(),
        },
{
    match v {
        Value::Dict(entries) => match dict_get(entries, key) {
            Some(Value::Str(s)) => Some(s),
            _ => None,
        },
        _ => None,
    }
}

/// Reads the request out of a payload: `ProtocolDecode` when it has no
/// `MessageType` string, `UnsupportedMessage` when that string names neither
/// `ListDevices` nor `ReadPairRecord`.
pub fn parse_request(payload: &Value) -> (r: Result<Request, Errors>)
    ensures
        r == request_of(*payload),
{
    let key = text("MessageType");
    match get_string(payload, &key) {
        None => Err(Errors::ProtocolDecode),
        Some(s) => {
            let list = text("ListDevices");
            let read = text("ReadPairRecord");
            if *s == list {
                Ok(Request::ListDevices)
            } else if *s == read {
                Ok(Request::ReadPairRecord)
            } else {
                Err(Errors::UnsupportedMessage)
            }
        },
    }
}

fn entry(key: &str, v: Value) -> (r: (String, Value))
    ensures
        r.0@ == key@,
        r.1 == v,
{
    (text(key), v)
}

/// The answer to `ListDevices` for the device whose `UDID` is `udid`.
pub fn device_list(udid: &String) -> (r: Value)
    ensures
        is_device_list(r, udid@),
{
    let mut props: Vec<(String, Value)> = Vec::new();
    props.push(entry("ConnectionType", Value::Str(text("Network"))));
    props.push(entry("DeviceID", Value::UInt(DEVICE_ID)));
    props.push(entry("EscapedFullServiceName", Value::Str(text("yurmomlolllllll"))));
    props.push(entry("InterfaceIndex", Value::UInt(INTERFACE_INDEX)));
    props.push(entry("NetworkAddress", Value::Data(network_address(IpAddress::V4([10u8, 7u8, 0u8, 1u8])))));
    props.push(entry("SerialNumber", Value::Str(copy_string(udid))));
    let mut device: Vec<(String, Value)> = Vec::new();
    device.push(entry("DeviceID", Value::UInt(DEVICE_ID)));
    device.push(entry("MessageType", Value::Str(text("Attached"))));
    device.push(entry("Properties", Value::Dict(props)));
    let mut list: Vec<Value> = Vec::new();
    list.push(Value::Dict(device));
    let mut top: Vec<(String, Value)> = Vec::new();
    top.push(entry("DeviceList", Value::Array(list)));
    Value::Dict(top)
}

/// The answer to `ReadPairRecord`: the record's text as data.
pub fn pair_record_data(record: &PairingRecord) -> (r: Value)
    ensures
        is_pair_record_data(r, record.text@),
{
    let mut top: Vec<(String, Value)> = Vec::new();
    top.push(entry("PairRecordData", Value::Data(copy_bytes(&record.text))));
    Value::Dict(top)
}

/// Answers one request payload: the device list for `ListDevices`, the pairing
/// record's text for `ReadPairRecord`, and the error of `request_of` otherwise.
pub fn dispatch(payload: &Value, record: &PairingRecord) -> (r: Result<Value, Errors>)
    ensures
        match request_of(*payload) {
            Ok(Request::ListDevices) => r matches Ok(v) && is_device_list(v, record.udid@),
            Ok(Request::ReadPairRecord) => r matches Ok(v) && is_pair_record_data(v, record.text@),
            Err(e) => r matches Err(x) && x == e,
        },
{
    match parse_request(payload) {
        Ok(Request::ListDevices) => Ok(device_list(&record.udid)),
        Ok(Request::ReadPairRecord) => Ok(pair_record_data(record)),
        Err(e) => Err(e),
    }
}

} // verus!
