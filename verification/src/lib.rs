//! Hardware-facing logic of the HT32 front panel found in mini PCs (an
//! RGB565 LCD driven over USB HID and an RGB LED strip driven over a serial
//! line), together with the panel daemon's settings, faces and sensor
//! parsing rules.

pub mod error;
pub mod text;
pub mod scan;
pub mod orientation;
pub mod protocol;
pub mod framebuffer;
pub mod led;
pub mod lcd;
pub mod config;
pub mod faces;
pub mod sensors;
pub mod state;
pub mod screen;
pub mod web;
pub mod bus;
pub mod tray;
pub mod listing;

use vstd::prelude::*;

verus! {

/// LCD display width in pixels (hardware native landscape).
pub const LCD_WIDTH: u16 = 320;

/// LCD display height in pixels (hardware native landscape).
pub const LCD_HEIGHT: u16 = 170;

/// USB vendor id of the LCD device.
pub const LCD_VID: u16 = 0x04D9;

/// USB product id of the LCD device.
pub const LCD_PID: u16 = 0xFD01;

} // verus!
