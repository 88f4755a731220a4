//! Control of a USB-HID macropad: validated commands, their 8-byte feature
//! reports, and the session that finds the device and sends them.
pub mod command;
pub mod device;
pub mod error;
pub mod report;
