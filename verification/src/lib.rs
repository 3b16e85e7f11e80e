//! A bridge between an application's commands and the native methods of an
//! Android activity: which native call a command makes, what a failed
//! handshake is called, and how the JSON text that comes back is decoded
//! into typed records.

pub mod codec;
pub mod commands;
pub mod json;
pub mod native;
pub mod records;
pub mod text;

pub use records::{PhotoInfo, PrinterInfo, UsbDeviceInfo};
