//! The records that the commands hand to their caller.

use vstd::prelude::*;

verus! {

/// A printer known to the platform.
#[derive(Debug, PartialEq, Eq)]
pub struct PrinterInfo {
    pub name: String,
    pub is_default: bool,
}

/// What a `PrinterInfo` holds.
pub struct PrinterRecord {
    pub name: Seq<char>,
    pub is_default: bool,
}

impl View for PrinterInfo {
    type V = PrinterRecord;

    open spec fn view(&self) -> PrinterRecord {
        PrinterRecord { name: self.name@, is_default: self.is_default }
    }
}

/// A captured photo: where it lies, and what the native side said of it.
#[derive(Debug, PartialEq, Eq)]
pub struct PhotoInfo {
    pub path: String,
    pub uri: String,
    pub status: Option<String>,
    pub message: Option<String>,
}

/// What a `PhotoInfo` holds.
pub struct PhotoRecord {
    pub path: Seq<char>,
    pub uri: Seq<char>,
    pub status: Option<Seq<char>>,
    pub message: Option<Seq<char>>,
}

/// The characters of an optional string.
pub open spec fn text_of(s: Option<String>) -> Option<Seq<char>> {
    match s {
        Some(t) => Some(t@),
        None => None,
    }
}

impl View for PhotoInfo {
    type V = PhotoRecord;

    open spec fn view(&self) -> PhotoRecord {
        PhotoRecord {
            path: self.path@,
            uri: self.uri@,
            status: text_of(self.status),
            message: text_of(self.message),
        }
    }
}

/// A USB device attached to the host.
#[derive(Debug, PartialEq, Eq)]
pub struct UsbDeviceInfo {
    pub device_name: String,
    pub vendor_id: i32,
    pub product_id: i32,
    pub device_class: i32,
    pub device_protocol: i32,
    pub manufacturer_name: Option<String>,
    pub product_name: Option<String>,
    pub serial_number: Option<String>,
}

/// What a `UsbDeviceInfo` holds.
pub struct UsbDeviceRecord {
    pub device_name: Seq<char>,
    pub vendor_id: int,
    pub product_id: int,
    pub device_class: int,
    pub device_protocol: int,
    pub manufacturer_name: Option<Seq<char>>,
    pub product_name: Option<Seq<char>>,
    pub serial_number: Option<Seq<char>>,
}

impl UsbDeviceRecord {
    /// Whether each of the three optional texts is either missing or not
    /// empty. A decoded device is always so: an empty text in the payload
    /// counts as a missing one.
    pub open spec fn normalized(self) -> bool {
        &&& self.manufacturer_name matches Some(s) ==> s.len() > 0
        &&& self.product_name matches Some(s) ==> s.len() > 0
        &&& self.serial_number matches Some(s) ==> s.len() > 0
    }
}

impl View for UsbDeviceInfo {
    type V = UsbDeviceRecord;

    open spec fn view(&self) -> UsbDeviceRecord {
        UsbDeviceRecord {
            device_name: self.device_name@,
            vendor_id: self.vendor_id as int,
            product_id: self.product_id as int,
            device_class: self.device_class as int,
            device_protocol: self.device_protocol as int,
            manufacturer_name: text_of(self.manufacturer_name),
            product_name: text_of(self.product_name),
            serial_number: text_of(self.serial_number),
        }
    }
}

} // verus!
