//! The commands of the bridge. A command that needs the native side comes
//! in two halves: the first says which native call to make, or fails at
//! once where the platform has none to offer; the second turns what the call
//! brought back into the command's result. The call itself is made between
//! the two, by whoever holds the platform.

use crate::codec::{
    parse_photo_json, parse_usb_devices_json, photo_outcome, photo_result, printer_records,
    usb_devices_outcome, usb_result,
};
use crate::native::{Failure, NativeCall, NativeCallRecord, NativeMethod};
use crate::records::{PhotoInfo, PrinterInfo, PrinterRecord, UsbDeviceInfo};
use crate::text::parsed_text;
use vstd::prelude::*;

verus! {

/// Where the bridge runs.
#[derive(Clone, Copy, Debug, PartialEq, Eq)]
pub enum Platform {
    /// On Android, where the native methods are.
    Android,
    /// Anywhere else.
    Other,
}

/// The greeting for `name`.
pub open spec fn greeting(name: Seq<char>) -> Seq<char> {
    "你好, "@ + name + "! 欢迎使用打印应用!"@
}

/// Greets `name`.
pub fn greet(name: &str) -> (r: String)
    ensures
        r@ == greeting(name@),
{
    let mut out = String::from_str("你好, ");
    out.append(name);
    out.append("! 欢迎使用打印应用!");
    out
}

/// The one printer that Android reports.
pub open spec fn default_printer() -> PrinterRecord {
    PrinterRecord { name: "默认打印机"@, is_default: true }
}

/// What a command that needs `method` does first on a platform: on Android
/// it asks for the call, anywhere else it fails with `unsupported`.
pub open spec fn first_half(
    platform: Platform,
    method: NativeMethod,
    argument: Option<Seq<char>>,
    unsupported: Seq<char>,
) -> Result<NativeCallRecord, Seq<char>> {
    match platform {
        Platform::Android => Ok(NativeCallRecord { method, argument }),
        Platform::Other => Err(unsupported),
    }
}

/// What the first half of a command holds.
pub open spec fn call_result(r: Result<NativeCall, String>) -> Result<NativeCallRecord, Seq<char>> {
    match r {
        Ok(call) => Ok(call@),
        Err(e) => Err(e@),
    }
}

/// Lists the connected printers: on Android the default printer alone,
/// anywhere else a failure.
pub fn get_connected_printers(platform: Platform) -> (r: Result<Vec<PrinterInfo>, String>)
    ensures
        match platform {
            Platform::Android => r matches Ok(printers) && printer_records(printers@) == seq![
                default_printer(),
            ],
            Platform::Other => r matches Err(e) && e@ == "桌面端暂不支持获取打印机功能"@,
        },
{
    match platform {
        Platform::Android => {
            let mut printers: Vec<PrinterInfo> = Vec::new();
            printers.push(PrinterInfo { name: String::from_str("默认打印机"), is_default: true });
            assert(printer_records(printers@) =~= seq![default_printer()]);
            Ok(printers)
        },
        Platform::Other => Err(String::from_str("桌面端暂不支持获取打印机功能")),
    }
}

/// First half of listing the USB devices.
pub fn get_usb_devices(platform: Platform) -> (r: Result<NativeCall, String>)
    ensures
        call_result(r) == first_half(
            platform,
            NativeMethod::GetConnectedUsbDevices,
            None,
            "桌面端暂不支持获取 USB 设备功能"@,
        ),
{
    match platform {
        Platform::Android => Ok(
            NativeCall { method: NativeMethod::GetConnectedUsbDevices, argument: None },
        ),
        Platform::Other => Err(String::from_str("桌面端暂不支持获取 USB 设备功能")),
    }
}

/// First half of taking a photo.
pub fn take_photo(platform: Platform) -> (r: Result<NativeCall, String>)
    ensures
        call_result(r) == first_half(
            platform,
            NativeMethod::TakePhotoBase64,
            None,
            "桌面端暂不支持拍照功能"@,
        ),
{
    match platform {
        Platform::Android => Ok(NativeCall { method: NativeMethod::TakePhotoBase64, argument: None }),
        Platform::Other => Err(String::from_str("桌面端暂不支持拍照功能")),
    }
}

/// First half of fetching the photo that an earlier `take_photo` asked for.
pub fn get_photo_result(platform: Platform) -> (r: Result<NativeCall, String>)
    ensures
        call_result(r) == first_half(
            platform,
            NativeMethod::GetPhotoResult,
            None,
            "桌面端暂不支持拍照功能"@,
        ),
{
    match platform {
        Platform::Android => Ok(NativeCall { method: NativeMethod::GetPhotoResult, argument: None }),
        Platform::Other => Err(String::from_str("桌面端暂不支持拍照功能")),
    }
}

/// First half of printing on the device at `device_path`.
pub fn print_document(platform: Platform, device_path: String) -> (r: Result<NativeCall, String>)
    ensures
        call_result(r) == first_half(
            platform,
            NativeMethod::Print,
            Some(device_path@),
            "桌面端暂不支持打印功能"@,
        ),
{
    match platform {
        Platform::Android => Ok(
            NativeCall { method: NativeMethod::Print, argument: Some(device_path) },
        ),
        Platform::Other => Err(String::from_str("桌面端暂不支持打印功能")),
    }
}

/// Anywhere but on Android the first half of a command asks for no native
/// call: it fails with the command's own message.
pub proof fn lemma_no_call_off_android(
    method: NativeMethod,
    argument: Option<Seq<char>>,
    unsupported: Seq<char>,
)
    ensures
        first_half(Platform::Other, method, argument, unsupported) == Err::<
            NativeCallRecord,
            Seq<char>,
        >(unsupported),
        first_half(Platform::Android, method, argument, unsupported) is Ok,
{
}

/// The error of a round trip that failed.
pub open spec fn failure_of(method: NativeMethod, failure: Failure) -> Seq<char> {
    method.spec_failure_label(failure.step) + failure.detail@
}

/// Second half of listing the USB devices: a failed round trip gives its
/// error, and a text is read as the JSON list of the devices, which fails
/// where the text is no JSON or no array.
pub fn finish_get_usb_devices(reply: Result<String, Failure>) -> (r: Result<
    Vec<UsbDeviceInfo>,
    String,
>)
    ensures
        usb_result(r) == match reply {
            Ok(text) => usb_devices_outcome(parsed_text(text@)),
            Err(failure) => Err(failure_of(NativeMethod::GetConnectedUsbDevices, failure)),
        },
{
    match reply {
        Ok(text) => parse_usb_devices_json(text.as_str()),
        Err(failure) => Err(NativeMethod::GetConnectedUsbDevices.failure_text(&failure)),
    }
}

/// Second half of taking a photo.
pub fn finish_take_photo(reply: Result<String, Failure>) -> (r: Result<PhotoInfo, String>)
    ensures
        photo_result(r) == match reply {
            Ok(text) => photo_outcome(parsed_text(text@)),
            Err(failure) => Err(failure_of(NativeMethod::TakePhotoBase64, failure)),
        },
{
    match reply {
        Ok(text) => parse_photo_json(text.as_str()),
        Err(failure) => Err(NativeMethod::TakePhotoBase64.failure_text(&failure)),
    }
}

/// Second half of fetching a photo.
pub fn finish_get_photo_result(reply: Result<String, Failure>) -> (r: Result<PhotoInfo, String>)
    ensures
        photo_result(r) == match reply {
            Ok(text) => photo_outcome(parsed_text(text@)),
            Err(failure) => Err(failure_of(NativeMethod::GetPhotoResult, failure)),
        },
{
    match reply {
        Ok(text) => parse_photo_json(text.as_str()),
        Err(failure) => Err(NativeMethod::GetPhotoResult.failure_text(&failure)),
    }
}

/// What printing comes to, given what the round trip brought back:
/// the method's own answer, a fixed one where it returned null, or the
/// error of the failure.
pub open spec fn print_outcome(reply: Result<Option<String>, Failure>) -> Result<
    Seq<char>,
    Seq<char>,
> {
    match reply {
        Ok(Some(response)) => Ok(response@),
        Ok(None) => Ok("打印完成"@),
        Err(failure) => Err(failure_of(NativeMethod::Print, failure)),
    }
}

/// What a finished print holds.
pub open spec fn text_result(r: Result<String, String>) -> Result<Seq<char>, Seq<char>> {
    match r {
        Ok(s) => Ok(s@),
        Err(e) => Err(e@),
    }
}

/// Second half of printing. A null from the native method is no failure:
/// it stands for a print that went through.
pub fn finish_print_document(reply: Result<Option<String>, Failure>) -> (r: Result<String, String>)
    ensures
        text_result(r) == print_outcome(reply),
{
    match reply {
        Ok(Some(response)) => Ok(response),
        Ok(None) => Ok(String::from_str("打印完成")),
        Err(failure) => Err(NativeMethod::Print.failure_text(&failure)),
    }
}

} // verus!
