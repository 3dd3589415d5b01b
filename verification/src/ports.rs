//! The devices found, and the records that describe them to the caller.
//!
//! Each device is described by a JSON object of text fields.  A record crosses
//! the boundary as bytes that end in a terminator and hold no other zero byte.

use crate::error_channel::{set_err, ErrorChannel};
use vstd::prelude::*;
use vstd::string::StringExecFns;
use vstd::string::StrSliceExecFns;
use vstd::utf8::encode_utf8;

verus! {

/// What is known of a device on a USB bus.
#[derive(Debug, PartialEq, Eq)]
pub struct UsbInfo {
    pub vendor_id: u16,
    pub product_id: u16,
    pub serial_number: Option<String>,
    pub manufacturer: Option<String>,
}

/// How a device is attached.
#[derive(Debug, PartialEq, Eq)]
pub enum PortType {
    Usb(UsbInfo),
    Pci,
    Bluetooth,
    Unknown,
}

/// One device, as it was found.
#[derive(Debug, PartialEq, Eq)]
pub struct PortInfo {
    pub port_name: String,
    pub port_type: PortType,
}

/// The sixteen digits, each at the place of its value.
pub open spec fn hex_digits() -> Seq<char> {
    "0123456789abcdef"@
}

/// `id` in four lowercase hexadecimal digits, the highest first.
pub open spec fn hex4(id: u16) -> Seq<char> {
    seq![
        hex_digits()[id as int / 4096],
        hex_digits()[(id as int / 256) % 16],
        hex_digits()[(id as int / 16) % 16],
        hex_digits()[id as int % 16],
    ]
}

/// Writes `id` in four lowercase hexadecimal digits, with leading zeros.
pub fn hex4_text(id: u16) -> (text: String)
    ensures
        text@ == hex4(id),
{
    let digits = "0123456789abcdef";
    proof {
        reveal_strlit("0123456789abcdef");
    }
    let first: usize = (id / 4096) as usize;
    let second: usize = ((id / 256) % 16) as usize;
    let third: usize = ((id / 16) % 16) as usize;
    let fourth: usize = (id % 16) as usize;
    let mut text = String::new();
    text.append(digits.substring_char(first, first + 1));
    text.append(digits.substring_char(second, second + 1));
    text.append(digits.substring_char(third, third + 1));
    text.append(digits.substring_char(fourth, fourth + 1));
    text
}

/// A field that is there only where its value is known.
pub open spec fn known_field(name: Seq<char>, value: Option<String>) -> Seq<(Seq<char>, Seq<char>)> {
    match value {
        Some(text) => seq![(name, text@)],
        None => seq![],
    }
}

/// The fields of a device's record, by name and value: the path always; for a
/// device on a USB bus also the manufacturer where known, the vendor and
/// product ids in four hexadecimal digits, and the serial number where known.
pub open spec fn port_fields(info: PortInfo) -> Seq<(Seq<char>, Seq<char>)> {
    let path = seq![("path"@, info.port_name@)];
    match info.port_type {
        PortType::Usb(usb) => path + known_field("manufacturer"@, usb.manufacturer) + seq![
            ("vendorId"@, hex4(usb.vendor_id)),
            ("productId"@, hex4(usb.product_id)),
        ] + known_field("serialNumber"@, usb.serial_number),
        _ => path,
    }
}

/// Collects the fields of a device's record.
pub fn port_field_list(info: &PortInfo) -> (fields: Vec<(String, String)>)
    ensures
        fields.deep_view() == port_fields(*info),
{
    let mut fields: Vec<(String, String)> = Vec::new();
    fields.push(("path".to_owned(), info.port_name.clone()));
    match &info.port_type {
        PortType::Usb(usb) => {
            let ghost path = fields.deep_view();
            match &usb.manufacturer {
                Some(name) => {
                    fields.push(("manufacturer".to_owned(), name.clone()));
                },
                None => {},
            }
            assert(fields.deep_view() =~= path + known_field("manufacturer"@, usb.manufacturer));
            let ghost named = fields.deep_view();
            fields.push(("vendorId".to_owned(), hex4_text(usb.vendor_id)));
            fields.push(("productId".to_owned(), hex4_text(usb.product_id)));
            assert(fields.deep_view() =~= named + seq![
                ("vendorId"@, hex4(usb.vendor_id)),
                ("productId"@, hex4(usb.product_id)),
            ]);
            let ghost with_ids = fields.deep_view();
            match &usb.serial_number {
                Some(serial) => {
                    fields.push(("serialNumber".to_owned(), serial.clone()));
                },
                None => {},
            }
            assert(fields.deep_view() =~= with_ids + known_field(
                "serialNumber"@,
                usb.serial_number,
            ));
        },
        _ => {},
    }
    fields
}

/// What `serde_json::to_string` gives for the JSON object that holds the
/// fields, each as a string under its name: the text, or the reason for which
/// it gave none.
pub uninterp spec fn json_object_text(fields: Seq<(Seq<char>, Seq<char>)>) -> Result<
    Seq<char>,
    Seq<char>,
>;

/// `serde_json::to_string`, on the object whose members are the fields as
/// strings.  The result is a function of the fields alone.
#[verifier::external_body]
fn json_object(fields: &Vec<(String, String)>) -> (text: Result<String, String>)
    ensures
        match text {
            Ok(json) => json_object_text(fields.deep_view()) == Ok::<Seq<char>, Seq<char>>(json@),
            Err(reason) => json_object_text(fields.deep_view()) == Err::<Seq<char>, Seq<char>>(
                reason@,
            ),
        },
{
    let members: serde_json::Map<String, serde_json::Value> = fields.iter().map(
        |field| (field.0.clone(), serde_json::Value::String(field.1.clone())),
    ).collect();
    serde_json::to_string(&serde_json::Value::Object(members)).map_err(|error| error.to_string())
}

/// The record of a device as JSON text.
pub fn port_to_json(info: &PortInfo) -> (text: Result<String, String>)
    ensures
        match text {
            Ok(json) => json_object_text(port_fields(*info)) == Ok::<Seq<char>, Seq<char>>(json@),
            Err(reason) => json_object_text(port_fields(*info)) == Err::<Seq<char>, Seq<char>>(
                reason@,
            ),
        },
{
    let fields = port_field_list(info);
    json_object(&fields)
}

/// The record that stands in for one that could not be written: an object
/// without members.
pub open spec fn empty_record() -> Seq<char> {
    "{}"@
}

/// The text of a record, given what writing it came to.  A record that could
/// not be written becomes the empty record, and the reason is reported.
pub fn record_text(errors: &mut ErrorChannel, written: Result<String, String>) -> (text: String)
    ensures
        match written {
            Ok(json) => {
                &&& text@ == json@
                &&& final(errors).message() == old(errors).message()
            },
            Err(reason) => {
                &&& text@ == empty_record()
                &&& final(errors).message() == Some(reason@)
            },
        },
{
    match written {
        Ok(json) => json,
        Err(reason) => {
            set_err(errors, reason);
            "{}".to_owned()
        },
    }
}

/// The bytes `{` and `}`.
pub open spec fn empty_record_bytes() -> Seq<u8> {
    seq![0x7bu8, 0x7du8]
}

/// The bytes under which a text crosses the boundary: its own bytes and a
/// terminator.  A text that holds a zero byte could not be told from a shorter
/// one, so the empty record goes in its place.
pub open spec fn terminated(text: Seq<u8>) -> Seq<u8> {
    if text.contains(0u8) {
        empty_record_bytes().push(0u8)
    } else {
        text.push(0u8)
    }
}

/// Lays a text out as terminated bytes.
pub fn terminated_bytes(text: &str) -> (bytes: Vec<u8>)
    ensures
        bytes@ == terminated(encode_utf8(text@)),
{
    let source = text.as_bytes();
    let mut bytes: Vec<u8> = Vec::new();
    let mut i: usize = 0;
    while i < source.len()
        invariant
            i <= source@.len(),
            source@ == encode_utf8(text@),
            bytes@ == source@.subrange(0, i as int),
            !bytes@.contains(0u8),
        decreases source@.len() - i,
    {
        let byte = source[i];
        if byte == 0 {
            assert(source@[i as int] == 0u8);
            let mut fallback: Vec<u8> = Vec::new();
            fallback.push(0x7b);
            fallback.push(0x7d);
            fallback.push(0);
            return fallback;
        }
        bytes.push(byte);
        assert(bytes@ =~= source@.subrange(0, i + 1));
        assert(!bytes@.contains(0u8)) by {
            if bytes@.contains(0u8) {
                let k = choose|k: int| 0 <= k < bytes@.len() && bytes@[k] == 0u8;
                if k < i {
                    assert(source@.subrange(0, i as int)[k] == 0u8);
                    assert(source@.subrange(0, i as int).contains(0u8));
                }
            }
        }
        i = i + 1;
    }
    assert(source@.subrange(0, i as int) =~= source@);
    bytes.push(0);
    bytes
}

/// The number of devices found; zero where the search itself failed.
pub fn serial_list_ports_len(found: &Result<Vec<PortInfo>, String>) -> (count: usize)
    ensures
        count == match *found {
            Ok(list) => list@.len(),
            Err(_) => 0,
        },
{
    match found {
        Ok(list) => list.len(),
        Err(_) => 0,
    }
}

/// The bytes of a device's record as they cross the boundary.
pub open spec fn record_bytes(info: PortInfo) -> Seq<u8> {
    terminated(
        encode_utf8(
            match json_object_text(port_fields(info)) {
                Ok(json) => json,
                Err(_) => empty_record(),
            },
        ),
    )
}

/// The message on the error channel after the records of the first `count`
/// devices were written: the reason of the last one that could not be, or
/// what was there before.
pub open spec fn message_after_records(
    before: Option<Seq<char>>,
    list: Seq<PortInfo>,
    count: int,
) -> Option<Seq<char>>
    decreases count,
{
    if count <= 0 {
        before
    } else {
        match json_object_text(port_fields(list[count - 1])) {
            Ok(_) => message_after_records(before, list, count - 1),
            Err(reason) => Some(reason),
        }
    }
}

/// The number of records that fit: one for each device found, as far as the
/// caller has slots.
pub open spec fn records_that_fit(found: int, capacity: int) -> int {
    if found <= capacity {
        found
    } else {
        capacity
    }
}

/// Writes the records of the devices found, one for each slot of the caller as
/// far as there are devices, in the order in which they were found.  A search
/// that failed yields no record and reports its reason.  A record that could
/// not be written, or that holds a zero byte, goes out as the empty record.
pub fn serial_list_ports_fill(
    errors: &mut ErrorChannel,
    found: Result<Vec<PortInfo>, String>,
    capacity: usize,
) -> (records: Vec<Vec<u8>>)
    ensures
        capacity == 0 ==> records@.len() == 0,
        match found {
            Ok(list) => {
                &&& records@.len() == records_that_fit(list@.len() as int, capacity as int)
                &&& forall|i: int|
                    0 <= i < records@.len() ==> (#[trigger] records@[i])@ == record_bytes(list@[i])
                &&& final(errors).message() == message_after_records(
                    old(errors).message(),
                    list@,
                    records@.len() as int,
                )
            },
            Err(reason) => {
                &&& records@.len() == 0
                &&& final(errors).message() == Some(reason@)
            },
        },
{
    let mut records: Vec<Vec<u8>> = Vec::new();
    match found {
        Ok(list) => {
            let count: usize = if list.len() <= capacity {
                list.len()
            } else {
                capacity
            };
            let mut i: usize = 0;
            while i < count
                invariant
                    i <= count,
                    count <= list@.len(),
                    records@.len() == i,
                    forall|k: int| 0 <= k < i ==> (#[trigger] records@[k])@ == record_bytes(list@[k]),
                    errors.message() == message_after_records(
                        old(errors).message(),
                        list@,
                        i as int,
                    ),
                decreases count - i,
            {
                let written = port_to_json(&list[i]);
                let text = record_text(errors, written);
                records.push(terminated_bytes(text.as_str()));
                i = i + 1;
            }
        },
        Err(reason) => {
            set_err(errors, reason);
        },
    }
    records
}

/// Terminated bytes end in the terminator and hold no other zero byte, so the
/// terminator marks the end of exactly what was laid out.
pub proof fn lemma_terminated_has_one_terminator(text: Seq<u8>)
    ensures
        terminated(text).len() >= 1,
        terminated(text).last() == 0,
        forall|i: int| 0 <= i < terminated(text).len() - 1 ==> terminated(text)[i] != 0,
        !text.contains(0u8) ==> terminated(text).drop_last() == text,
{
    if text.contains(0u8) {
    } else {
        assert forall|i: int| 0 <= i < terminated(text).len() - 1 implies terminated(text)[i]
            != 0 by {
            assert(terminated(text)[i] == text[i]);
            assert(text.contains(text[i]));
        }
        assert(terminated(text).drop_last() =~= text);
    }
}

/// The value of a hexadecimal digit in lower case; sixteen for any other
/// character.
pub open spec fn hex_value(digit: char) -> int {
    if '0' <= digit <= '9' {
        digit as int - '0' as int
    } else if 'a' <= digit <= 'f' {
        digit as int - 'a' as int + 10
    } else {
        16
    }
}

/// An id is written in exactly four digits, each of them a hexadecimal digit
/// in lower case, and the digits read back give the id.
pub proof fn lemma_hex4_reads_back(id: u16)
    ensures
        hex4(id).len() == 4,
        forall|i: int| 0 <= i < 4 ==> 0 <= hex_value(#[trigger] hex4(id)[i]) < 16,
        hex_value(hex4(id)[0]) * 4096 + hex_value(hex4(id)[1]) * 256 + hex_value(hex4(id)[2]) * 16
            + hex_value(hex4(id)[3]) == id,
{
    reveal_strlit("0123456789abcdef");
    assert forall|value: int| 0 <= value < 16 implies hex_value(#[trigger] hex_digits()[value])
        == value by {
        let digits = hex_digits();
        assert(digits.len() == 16);
        if value == 0 {
        } else if value == 1 {
        } else if value == 2 {
        } else if value == 3 {
        } else if value == 4 {
        } else if value == 5 {
        } else if value == 6 {
        } else if value == 7 {
        } else if value == 8 {
        } else if value == 9 {
        } else if value == 10 {
        } else if value == 11 {
        } else if value == 12 {
        } else if value == 13 {
        } else if value == 14 {
        } else {
        }
    }
    let a = id as int / 4096;
    let b = (id as int / 256) % 16;
    let c = (id as int / 16) % 16;
    let d = id as int % 16;
    assert(hex4(id)[0] == hex_digits()[a]);
    assert(hex4(id)[1] == hex_digits()[b]);
    assert(hex4(id)[2] == hex_digits()[c]);
    assert(hex4(id)[3] == hex_digits()[d]);
}

/// The record of a device on a USB bus names its vendor and its product, each
/// in four hexadecimal digits, whatever else is known of it; that of any other
/// device holds the path alone.
pub proof fn lemma_usb_record_names_ids(info: PortInfo)
    ensures
        port_fields(info)[0] == ("path"@, info.port_name@),
        info.port_type is Usb ==> port_fields(info).contains(
            ("vendorId"@, hex4(info.port_type->Usb_0.vendor_id)),
        ) && port_fields(info).contains(("productId"@, hex4(info.port_type->Usb_0.product_id))),
        !(info.port_type is Usb) ==> port_fields(info).len() == 1,
{
    match info.port_type {
        PortType::Usb(usb) => {
            let fields = port_fields(info);
            let shift = known_field("manufacturer"@, usb.manufacturer).len() as int;
            assert(fields[1 + shift] == ("vendorId"@, hex4(usb.vendor_id)));
            assert(fields[2 + shift] == ("productId"@, hex4(usb.product_id)));
        },
        _ => {},
    }
}

} // verus!
