//! Pixel formats of the GC9503 display controller.

use vstd::prelude::*;

verus! {

/// A pixel format the GC9503 display controller accepts.
pub trait Gc9503Color {
    /// Whether the channels are sent in BGR order (`true`) rather than RGB
    /// order (`false`).
    const COLOR_RGB: bool;
    /// The pixel format byte written while the controller starts up.
    const COLOR_VALUE: u8;
}

/// 16-bit colour, red first.
#[derive(Clone, Copy, PartialEq, Eq, Structural, Debug)]
pub struct Rgb565;

/// 18-bit colour, red first.
#[derive(Clone, Copy, PartialEq, Eq, Structural, Debug)]
pub struct Rgb666;

/// 24-bit colour, red first.
#[derive(Clone, Copy, PartialEq, Eq, Structural, Debug)]
pub struct Rgb888;

/// 16-bit colour, blue first.
#[derive(Clone, Copy, PartialEq, Eq, Structural, Debug)]
pub struct Bgr565;

/// 18-bit colour, blue first.
#[derive(Clone, Copy, PartialEq, Eq, Structural, Debug)]
pub struct Bgr666;

/// 24-bit colour, blue first.
#[derive(Clone, Copy, PartialEq, Eq, Structural, Debug)]
pub struct Bgr888;

impl Gc9503Color for Rgb565 {
    const COLOR_RGB: bool = false;
    const COLOR_VALUE: u8 = 0x50;
}

impl Gc9503Color for Rgb666 {
    const COLOR_RGB: bool = false;
    const COLOR_VALUE: u8 = 0x60;
}

impl Gc9503Color for Rgb888 {
    const COLOR_RGB: bool = false;
    const COLOR_VALUE: u8 = 0x70;
}

impl Gc9503Color for Bgr565 {
    const COLOR_RGB: bool = true;
    const COLOR_VALUE: u8 = 0x50;
}

impl Gc9503Color for Bgr666 {
    const COLOR_RGB: bool = true;
    const COLOR_VALUE: u8 = 0x60;
}

impl Gc9503Color for Bgr888 {
    const COLOR_RGB: bool = true;
    const COLOR_VALUE: u8 = 0x70;
}

} // verus!
