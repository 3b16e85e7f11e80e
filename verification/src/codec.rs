//! From a JSON payload of the native side to typed records. A payload of
//! the wrong shape (no array where a list is due, no object where a photo
//! is) fails. Within the right shape decoding is permissive: an element of
//! a list that is no object is dropped, a field that is missing or of the
//! wrong kind gets its default, and a field that no record knows is passed
//! over.

use crate::json::{
    borrowed_view, find_member, lemma_find_member_push, lemma_objects_empty, lemma_objects_push,
    Json, JsonValue,
};
use crate::records::{
    text_of, PhotoInfo, PhotoRecord, PrinterInfo, PrinterRecord, UsbDeviceInfo, UsbDeviceRecord,
};
use crate::text::{parse_failure, parse_json, parse_outcome, parsed_text};
use vstd::prelude::*;

verus! {

/// Whether an integer fits a signed 32-bit field.
pub open spec fn fits_i32(x: int) -> bool {
    -0x8000_0000 <= x < 0x8000_0000
}

/// The text under `key`, where the member is there and is a text.
pub open spec fn text_field(obj: Json, key: Seq<char>) -> Option<Seq<char>> {
    match obj.member(key) {
        Some(j) => j.text(),
        None => None,
    }
}

/// The text under `key`, or `fallback` where there is none.
pub open spec fn text_or(obj: Json, key: Seq<char>, fallback: Seq<char>) -> Seq<char> {
    match text_field(obj, key) {
        Some(s) => s,
        None => fallback,
    }
}

/// The text under `key`, where there is one and it is not empty.
pub open spec fn filled_text_field(obj: Json, key: Seq<char>) -> Option<Seq<char>> {
    match text_field(obj, key) {
        Some(s) => if s.len() == 0 {
            None
        } else {
            Some(s)
        },
        None => None,
    }
}

/// The integer under `key`, or 0 where the member is missing, is no
/// integer, or is one that does not fit a signed 32-bit field.
pub open spec fn integer_field(obj: Json, key: Seq<char>) -> int {
    match obj.member(key) {
        Some(j) => match j.integer() {
            Some(i) => if fits_i32(i) {
                i
            } else {
                0
            },
            None => 0,
        },
        None => 0,
    }
}

/// The boolean under `key`, or `false` where the member is missing or is no
/// boolean.
pub open spec fn bool_field(obj: Json, key: Seq<char>) -> bool {
    match obj.member(key) {
        Some(j) => match j.boolean() {
            Some(b) => b,
            None => false,
        },
        None => false,
    }
}

/// Whether a key is one that a USB device reads.
pub open spec fn is_usb_key(key: Seq<char>) -> bool {
    ||| key == "device_name"@
    ||| key == "vendor_id"@
    ||| key == "product_id"@
    ||| key == "device_class"@
    ||| key == "device_protocol"@
    ||| key == "manufacturer_name"@
    ||| key == "product_name"@
    ||| key == "serial_number"@
}

/// The USB device that an object describes.
pub open spec fn usb_device_of(obj: Json) -> UsbDeviceRecord {
    UsbDeviceRecord {
        device_name: text_or(obj, "device_name"@, "Unknown Device"@),
        vendor_id: integer_field(obj, "vendor_id"@),
        product_id: integer_field(obj, "product_id"@),
        device_class: integer_field(obj, "device_class"@),
        device_protocol: integer_field(obj, "device_protocol"@),
        manufacturer_name: filled_text_field(obj, "manufacturer_name"@),
        product_name: filled_text_field(obj, "product_name"@),
        serial_number: filled_text_field(obj, "serial_number"@),
    }
}

/// The USB devices that an array lists: one for each of its elements that
/// is an object, in order. Elements that are no objects are dropped.
pub open spec fn usb_devices_of(doc: Json) -> Seq<UsbDeviceRecord> {
    doc.objects().map_values(|j: Json| usb_device_of(j))
}

/// The USB devices that a payload lists, or why there are none: a payload
/// that is no array is malformed.
pub open spec fn usb_devices_decoded(doc: Json) -> Result<Seq<UsbDeviceRecord>, Seq<char>> {
    if doc is Array {
        Ok(usb_devices_of(doc))
    } else {
        Err("无效的 USB 设备数据格式"@)
    }
}

/// The printer that an object describes.
pub open spec fn printer_of(obj: Json) -> PrinterRecord {
    PrinterRecord { name: text_or(obj, "name"@, ""@), is_default: bool_field(obj, "is_default"@) }
}

/// The printers that an array lists: one for each of its elements that is
/// an object, in order.
pub open spec fn printers_of(doc: Json) -> Seq<PrinterRecord> {
    doc.objects().map_values(|j: Json| printer_of(j))
}

/// The printers that a payload lists, or why there are none: a payload that
/// is no array is malformed.
pub open spec fn printers_decoded(doc: Json) -> Result<Seq<PrinterRecord>, Seq<char>> {
    if doc is Array {
        Ok(printers_of(doc))
    } else {
        Err("无效的打印机数据格式"@)
    }
}

/// The failure that a photo payload reports in its `error` member.
pub open spec fn photo_failure(error: Json) -> Seq<char> {
    "拍照失败: "@ + match error.text() {
        Some(reason) => reason,
        None => "未知错误"@,
    }
}

/// The photo that a payload describes, or why there is none.
pub open spec fn photo_of(doc: Json) -> Result<PhotoRecord, Seq<char>> {
    if doc is Object {
        match doc.member("error"@) {
            Some(error) => Err(photo_failure(error)),
            None => Ok(
                PhotoRecord {
                    path: text_or(doc, "path"@, ""@),
                    uri: text_or(doc, "uri"@, ""@),
                    status: text_field(doc, "status"@),
                    message: text_field(doc, "message"@),
                },
            ),
        }
    } else {
        Err("无效的照片数据格式"@)
    }
}

/// What a list of USB devices holds.
pub open spec fn usb_records(devices: Seq<UsbDeviceInfo>) -> Seq<UsbDeviceRecord> {
    devices.map_values(|d: UsbDeviceInfo| d@)
}

/// What a list of printers holds.
pub open spec fn printer_records(printers: Seq<PrinterInfo>) -> Seq<PrinterRecord> {
    printers.map_values(|p: PrinterInfo| p@)
}

/// Reads the text under `key`, where there is one.
fn read_text(obj: &JsonValue, key: &str) -> (r: Option<String>)
    ensures
        text_of(r) == text_field(obj@, key@),
{
    match obj.get(key) {
        Some(j) => match j.as_str() {
            Some(s) => Some(String::from_str(s)),
            None => None,
        },
        None => None,
    }
}

/// Reads the text under `key`, or takes `fallback` where there is none.
fn read_text_or(obj: &JsonValue, key: &str, fallback: &str) -> (r: String)
    ensures
        r@ == text_or(obj@, key@, fallback@),
{
    match read_text(obj, key) {
        Some(s) => s,
        None => String::from_str(fallback),
    }
}

/// Reads the text under `key`, where there is one and it is not empty.
fn read_filled_text(obj: &JsonValue, key: &str) -> (r: Option<String>)
    ensures
        text_of(r) == filled_text_field(obj@, key@),
{
    match read_text(obj, key) {
        Some(s) => if s.as_str().is_empty() {
            None
        } else {
            Some(s)
        },
        None => None,
    }
}

/// Reads the integer under `key`, or takes 0 where there is none that fits
/// 32 bits.
fn read_integer(obj: &JsonValue, key: &str) -> (r: i32)
    ensures
        r as int == integer_field(obj@, key@),
{
    match obj.get(key) {
        Some(j) => match j.as_i64() {
            Some(i) => if -0x8000_0000 <= i && i < 0x8000_0000 {
                i as i32
            } else {
                0
            },
            None => 0,
        },
        None => 0,
    }
}

/// Reads the boolean under `key`, or takes `false` where there is none.
fn read_bool(obj: &JsonValue, key: &str) -> (r: bool)
    ensures
        r == bool_field(obj@, key@),
{
    match obj.get(key) {
        Some(j) => match j.as_bool() {
            Some(b) => b,
            None => false,
        },
        None => false,
    }
}

/// Decodes one USB device from an object of the payload.
pub fn decode_usb_device(obj: &JsonValue) -> (r: UsbDeviceInfo)
    ensures
        r@ == usb_device_of(obj@),
        r@.normalized(),
{
    UsbDeviceInfo {
        device_name: read_text_or(obj, "device_name", "Unknown Device"),
        vendor_id: read_integer(obj, "vendor_id"),
        product_id: read_integer(obj, "product_id"),
        device_class: read_integer(obj, "device_class"),
        device_protocol: read_integer(obj, "device_protocol"),
        manufacturer_name: read_filled_text(obj, "manufacturer_name"),
        product_name: read_filled_text(obj, "product_name"),
        serial_number: read_filled_text(obj, "serial_number"),
    }
}

/// What a decoded list of USB devices, or its failure, holds.
pub open spec fn usb_result(r: Result<Vec<UsbDeviceInfo>, String>) -> Result<
    Seq<UsbDeviceRecord>,
    Seq<char>,
> {
    match r {
        Ok(devices) => Ok(usb_records(devices@)),
        Err(e) => Err(e@),
    }
}

/// What a decoded list of printers, or its failure, holds.
pub open spec fn printer_result(r: Result<Vec<PrinterInfo>, String>) -> Result<
    Seq<PrinterRecord>,
    Seq<char>,
> {
    match r {
        Ok(printers) => Ok(printer_records(printers@)),
        Err(e) => Err(e@),
    }
}

/// Decodes the list of USB devices from a payload: one device for each
/// element of the array that is an object, in order. Other elements are
/// dropped. A payload that is no array fails with a fixed message.
pub fn decode_usb_devices(doc: &JsonValue) -> (r: Result<Vec<UsbDeviceInfo>, String>)
    ensures
        usb_result(r) == usb_devices_decoded(doc@),
{
    match doc {
        JsonValue::Array(_) => {
            let objects = doc.objects();
            let mut out: Vec<UsbDeviceInfo> = Vec::new();
            let mut i: usize = 0;
            while i < objects.len()
                invariant
                    i <= objects.len(),
                    out@.len() == i,
                    forall|k: int|
                        0 <= k < i ==> (#[trigger] out@[k])@ == usb_device_of(objects@[k]@),
                decreases objects.len() - i,
            {
                let device = decode_usb_device(objects[i]);
                out.push(device);
                i = i + 1;
            }
            assert(usb_records(out@) =~= borrowed_view(objects@).map_values(
                |j: Json| usb_device_of(j),
            ));
            Ok(out)
        },
        _ => Err(String::from_str("无效的 USB 设备数据格式")),
    }
}

/// Decodes one printer from an object of the payload. A name that is
/// missing or no text is read as empty, and a default mark that is missing
/// or no boolean as `false`.
pub fn decode_printer(obj: &JsonValue) -> (r: PrinterInfo)
    ensures
        r@ == printer_of(obj@),
{
    PrinterInfo { name: read_text_or(obj, "name", ""), is_default: read_bool(obj, "is_default") }
}

/// Decodes the list of printers from a payload: one printer for each
/// element of the array that is an object, in order. A payload that is no
/// array fails with a fixed message.
pub fn decode_printers(doc: &JsonValue) -> (r: Result<Vec<PrinterInfo>, String>)
    ensures
        printer_result(r) == printers_decoded(doc@),
{
    match doc {
        JsonValue::Array(_) => {
            let objects = doc.objects();
            let mut out: Vec<PrinterInfo> = Vec::new();
            let mut i: usize = 0;
            while i < objects.len()
                invariant
                    i <= objects.len(),
                    out@.len() == i,
                    forall|k: int|
                        0 <= k < i ==> (#[trigger] out@[k])@ == printer_of(objects@[k]@),
                decreases objects.len() - i,
            {
                let printer = decode_printer(objects[i]);
                out.push(printer);
                i = i + 1;
            }
            assert(printer_records(out@) =~= borrowed_view(objects@).map_values(
                |j: Json| printer_of(j),
            ));
            Ok(out)
        },
        _ => Err(String::from_str("无效的打印机数据格式")),
    }
}

/// What a decoded photo, or its failure, holds.
pub open spec fn photo_result(r: Result<PhotoInfo, String>) -> Result<PhotoRecord, Seq<char>> {
    match r {
        Ok(photo) => Ok(photo@),
        Err(e) => Err(e@),
    }
}

/// Decodes a photo from a payload. A payload with an `error` member fails
/// with that error's text, whatever else it holds; a payload that is no
/// object fails with a fixed message.
pub fn decode_photo(doc: &JsonValue) -> (r: Result<PhotoInfo, String>)
    ensures
        photo_result(r) == photo_of(doc@),
{
    match doc {
        JsonValue::Object(_) => {
            match doc.get("error") {
                Some(error) => {
                    let mut out = String::from_str("拍照失败: ");
                    match error.as_str() {
                        Some(reason) => out.append(reason),
                        None => out.append("未知错误"),
                    }
                    Err(out)
                },
                None => Ok(
                    PhotoInfo {
                        path: read_text_or(doc, "path", ""),
                        uri: read_text_or(doc, "uri", ""),
                        status: read_text(doc, "status"),
                        message: read_text(doc, "message"),
                    },
                ),
            }
        },
        _ => Err(String::from_str("无效的照片数据格式")),
    }
}

/// What `parse_usb_devices_json` returns, given what the parser makes of
/// the text.
pub open spec fn usb_devices_outcome(parsed: Result<Json, Seq<char>>) -> Result<
    Seq<UsbDeviceRecord>,
    Seq<char>,
> {
    match parsed {
        Ok(doc) => usb_devices_decoded(doc),
        Err(message) => Err(parse_failure(message)),
    }
}

/// What `parse_photo_json` returns, given what the parser makes of the
/// text.
pub open spec fn photo_outcome(parsed: Result<Json, Seq<char>>) -> Result<PhotoRecord, Seq<char>> {
    match parsed {
        Ok(doc) => photo_of(doc),
        Err(message) => Err(parse_failure(message)),
    }
}

/// Reads the list of USB devices from the JSON text of the native side. A
/// text that is no JSON fails with the parser's message, and one that is
/// JSON but no array with a fixed one.
pub fn parse_usb_devices_json(json_str: &str) -> (r: Result<Vec<UsbDeviceInfo>, String>)
    ensures
        usb_result(r) == usb_devices_outcome(parsed_text(json_str@)),
{
    match parse_json(json_str) {
        Ok(doc) => decode_usb_devices(&doc),
        Err(e) => Err(e),
    }
}

/// Reads a photo from the JSON text of the native side.
pub fn parse_photo_json(json_str: &str) -> (r: Result<PhotoInfo, String>)
    ensures
        photo_result(r) == photo_outcome(parsed_text(json_str@)),
{
    match parse_json(json_str) {
        Ok(doc) => decode_photo(&doc),
        Err(e) => Err(e),
    }
}

/// Decoding the USB devices of an array goes element by element: an
/// empty array lists nothing, an element that is no object adds nothing, and
/// an object adds its own device behind those of the elements before it.
pub proof fn lemma_usb_devices_by_element(items: Seq<Json>, last: Json)
    ensures
        usb_devices_of(Json::Array(Seq::empty())) == Seq::<UsbDeviceRecord>::empty(),
        !(last is Object) ==> usb_devices_of(Json::Array(items.push(last))) == usb_devices_of(
            Json::Array(items),
        ),
        last is Object ==> usb_devices_of(Json::Array(items.push(last))) == usb_devices_of(
            Json::Array(items),
        ).push(usb_device_of(last)),
{
    lemma_objects_empty();
    lemma_objects_push(items, last);
    assert(usb_devices_of(Json::Array(Seq::empty())) =~= Seq::<UsbDeviceRecord>::empty());
    if last is Object {
        assert(usb_devices_of(Json::Array(items.push(last))) =~= usb_devices_of(
            Json::Array(items),
        ).push(usb_device_of(last)));
    }
}

/// A payload that is no array gives no list, of USB devices or of printers:
/// it fails, with a message of its own for each.
pub proof fn lemma_lists_need_an_array(doc: Json)
    ensures
        doc is Array ==> usb_devices_decoded(doc) == Ok::<Seq<UsbDeviceRecord>, Seq<char>>(
            usb_devices_of(doc),
        ),
        doc is Array ==> printers_decoded(doc) == Ok::<Seq<PrinterRecord>, Seq<char>>(
            printers_of(doc),
        ),
        !(doc is Array) ==> usb_devices_decoded(doc) == Err::<Seq<UsbDeviceRecord>, Seq<char>>(
            "无效的 USB 设备数据格式"@,
        ),
        !(doc is Array) ==> printers_decoded(doc) == Err::<Seq<PrinterRecord>, Seq<char>>(
            "无效的打印机数据格式"@,
        ),
{
}

/// As many USB devices are decoded as the array has objects, and the device
/// at each place is that of the object at that place among the objects.
pub proof fn lemma_usb_devices_in_order(doc: Json, k: int)
    requires
        0 <= k < doc.objects().len(),
    ensures
        usb_devices_of(doc).len() == doc.objects().len(),
        usb_devices_of(doc)[k] == usb_device_of(doc.objects()[k]),
        doc.objects()[k] is Object,
{
    match doc {
        Json::Array(items) => {
            items.lemma_filter_pred(|j: Json| j is Object, k);
        },
        _ => {},
    }
}

/// Under every key, a member that is added at the end is found where no
/// earlier member has the key, and changes nothing otherwise.
proof fn lemma_find_member_push_all(members: Seq<(Seq<char>, Json)>, added: (Seq<char>, Json))
    ensures
        forall|key: Seq<char>| #[trigger]
            find_member(members.push(added), key) == match find_member(members, key) {
                Some(found) => Some(found),
                None => if added.0 == key {
                    Some(added.1)
                } else {
                    None
                },
            },
{
    assert forall|key: Seq<char>| #[trigger]
        find_member(members.push(added), key) == match find_member(members, key) {
            Some(found) => Some(found),
            None => if added.0 == key {
                Some(added.1)
            } else {
                None
            },
        } by {
        lemma_find_member_push(members, added, key);
    }
}

/// An optional text of a USB device that is there but empty is read as one
/// that is missing: either way the device has no value for it.
pub proof fn lemma_empty_text_is_absent(obj: Json)
    ensures
        obj.member("manufacturer_name"@) is None || obj.member("manufacturer_name"@) == Some(
            Json::Text(Seq::empty()),
        ) ==> usb_device_of(obj).manufacturer_name is None,
        obj.member("product_name"@) is None || obj.member("product_name"@) == Some(
            Json::Text(Seq::empty()),
        ) ==> usb_device_of(obj).product_name is None,
        obj.member("serial_number"@) is None || obj.member("serial_number"@) == Some(
            Json::Text(Seq::empty()),
        ) ==> usb_device_of(obj).serial_number is None,
{
}

/// Adding an empty manufacturer, product or serial number to an object that
/// has none leaves the decoded USB device as it was.
pub proof fn lemma_empty_text_changes_nothing(members: Seq<(Seq<char>, Json)>, key: Seq<char>)
    requires
        key == "manufacturer_name"@ || key == "product_name"@ || key == "serial_number"@,
        find_member(members, key) is None,
    ensures
        usb_device_of(Json::Object(members.push((key, Json::Text(Seq::empty()))))) == usb_device_of(
            Json::Object(members),
        ),
{
    let added = (key, Json::Text(Seq::empty()));
    reveal_strlit("device_name");
    reveal_strlit("vendor_id");
    reveal_strlit("product_id");
    reveal_strlit("device_class");
    reveal_strlit("device_protocol");
    reveal_strlit("manufacturer_name");
    reveal_strlit("product_name");
    reveal_strlit("serial_number");
    assert("device_name"@.len() == 11 && "vendor_id"@.len() == 9 && "product_id"@.len() == 10);
    assert("device_class"@.len() == 12 && "device_protocol"@.len() == 15);
    assert("manufacturer_name"@.len() == 17 && "serial_number"@.len() == 13);
    assert("product_name"@.len() == 12 && "product_name"@[0] != "device_class"@[0]);
    lemma_find_member_push_all(members, added);
}

/// No optional text of a decoded USB device is empty.
pub proof fn lemma_usb_device_is_normalized(obj: Json)
    ensures
        usb_device_of(obj).normalized(),
{
}

/// An integer of a USB device whose member is missing is 0.
pub proof fn lemma_missing_integer_is_zero(obj: Json)
    ensures
        obj.member("vendor_id"@) is None ==> usb_device_of(obj).vendor_id == 0,
        obj.member("product_id"@) is None ==> usb_device_of(obj).product_id == 0,
        obj.member("device_class"@) is None ==> usb_device_of(obj).device_class == 0,
        obj.member("device_protocol"@) is None ==> usb_device_of(obj).device_protocol == 0,
{
}

/// An integer of a USB device is that of its member where the member is an
/// integer that fits 32 bits, and 0 where it is an integer that does not.
pub proof fn lemma_integer_fits_or_is_zero(obj: Json, key: Seq<char>, i: int)
    requires
        obj.member(key) == Some(Json::Integer(i)),
    ensures
        fits_i32(i) ==> integer_field(obj, key) == i,
        !fits_i32(i) ==> integer_field(obj, key) == 0,
        fits_i32(integer_field(obj, key)),
{
}

/// A member under a key that no USB device reads changes nothing.
pub proof fn lemma_unknown_member_is_ignored(
    members: Seq<(Seq<char>, Json)>,
    added: (Seq<char>, Json),
)
    requires
        !is_usb_key(added.0),
    ensures
        usb_device_of(Json::Object(members.push(added))) == usb_device_of(Json::Object(members)),
{
    lemma_find_member_push_all(members, added);
}

/// A photo payload with an `error` member fails, whatever else it holds,
/// and an error that is a text is part of the failure.
pub proof fn lemma_photo_error_wins(doc: Json)
    requires
        doc is Object,
        doc.member("error"@) is Some,
    ensures
        photo_of(doc) is Err,
        doc.member("error"@) matches Some(Json::Text(reason)) ==> photo_of(doc) == Err::<
            PhotoRecord,
            Seq<char>,
        >("拍照失败: "@ + reason),
{
}

/// A text that is no JSON fails at every entry point, with the parser's
/// message behind the same fixed prefix.
pub proof fn lemma_malformed_text_fails(parsed: Result<Json, Seq<char>>)
    requires
        parsed is Err,
    ensures
        parse_outcome(parsed) == Err::<Json, Seq<char>>("JSON解析失败: "@ + parsed->Err_0),
        usb_devices_outcome(parsed) == Err::<Seq<UsbDeviceRecord>, Seq<char>>(
            "JSON解析失败: "@ + parsed->Err_0,
        ),
        photo_outcome(parsed) == Err::<PhotoRecord, Seq<char>>("JSON解析失败: "@ + parsed->Err_0),
{
}

} // verus!
