//! The numbers of the Linux input and uinput interfaces.

use vstd::prelude::*;

verus! {

// Event types.
pub const EV_SYN: u16 = 0x00;
pub const EV_KEY: u16 = 0x01;
pub const EV_ABS: u16 = 0x03;

// Codes of synchronisation events.
pub const SYN_REPORT: u16 = 0;

// Codes of the buttons of a gamepad.
pub const BTN_SOUTH: u16 = 0x130;  // A, Cross
pub const BTN_EAST: u16 = 0x131;  // B, Circle
pub const BTN_NORTH: u16 = 0x133;  // Y, Triangle
pub const BTN_WEST: u16 = 0x134;  // X, Square
pub const BTN_TL: u16 = 0x136;  // L1
pub const BTN_TR: u16 = 0x137;  // R1
pub const BTN_SELECT: u16 = 0x13a;  // Share, Select
pub const BTN_START: u16 = 0x13b;  // Options, Start
pub const BTN_MODE: u16 = 0x13c;  // Guide
pub const BTN_THUMBL: u16 = 0x13d;  // L3
pub const BTN_THUMBR: u16 = 0x13e;  // R3

// Codes of absolute axes.
pub const ABS_X: u16 = 0x00;  // left stick
pub const ABS_Y: u16 = 0x01;  // left stick
pub const ABS_Z: u16 = 0x02;  // L2
pub const ABS_RX: u16 = 0x03;  // right stick
pub const ABS_RY: u16 = 0x04;  // right stick
pub const ABS_RZ: u16 = 0x05;  // R2
pub const ABS_HAT0X: u16 = 0x10;  // D-pad
pub const ABS_HAT0Y: u16 = 0x11;  // D-pad

// Request codes of uinput.
pub const UI_SET_EVBIT: u32 = 0x40045564;
pub const UI_SET_KEYBIT: u32 = 0x40045565;
pub const UI_SET_ABSBIT: u32 = 0x40045567;
pub const UI_ABS_SETUP: u32 = 0x401c5504;
pub const UI_DEV_SETUP: u32 = 0x405c5503;
pub const UI_DEV_CREATE: u32 = 0x5501;
pub const UI_DEV_DESTROY: u32 = 0x5502;

} // verus!
