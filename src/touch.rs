//! Records read from the touch controller.

use vstd::prelude::*;

verus! {

/// The status of one touch point.
#[derive(Clone, Copy, PartialEq, Eq, Structural, Debug)]
pub struct TouchStatus {
    /// The touch point ID.
    pub point_id: u8,
    /// The X coordinate.
    pub x: u16,
    /// The Y coordinate.
    pub y: u16,
    /// The area of the touch.
    pub area: u16,
    /// A padding byte.
    pub padding: u8,
}

/// A command for the touch controller, holding the buffer its answer fills.
#[derive(Debug, PartialEq, Eq)]
pub enum Gt911Command {
    /// Read the product ID and version.
    ProductId([u8; 4], u8),
    /// Read the number of touch points.
    TouchPointCount(u8),
    /// Read the status of one touch point.
    TouchPointQuery(TouchStatus),
    /// Read the status of every touch point.
    TouchPointList(Vec<TouchStatus>),
}

/// The 16-bit value whose little-endian bytes are `lo` then `hi`.
pub open spec fn le_u16(lo: u8, hi: u8) -> u16 {
    (lo + 256 * hi) as u16
}

fn read_le_u16(lo: u8, hi: u8) -> (r: u16)
    ensures
        r == le_u16(lo, hi),
{
    lo as u16 + (hi as u16) * 256
}

impl TouchStatus {
    /// A status that queries the touch point `point_id`.
    pub fn new(point_id: u8) -> (r: Self)
        ensures
            r == (TouchStatus { point_id, x: 0, y: 0, area: 0, padding: 0 }),
    {
        TouchStatus { point_id, area: 0, x: 0, y: 0, padding: 0 }
    }

    /// Decodes the eight bytes of a touch point record: the ID, then X, Y
    /// and area as little-endian 16-bit values, then a padding byte.
    pub fn from_bytes(bytes: [u8; 8]) -> (r: Self)
        ensures
            r.point_id == bytes@[0],
            r.x == le_u16(bytes@[1], bytes@[2]),
            r.y == le_u16(bytes@[3], bytes@[4]),
            r.area == le_u16(bytes@[5], bytes@[6]),
            r.padding == bytes@[7],
    {
        TouchStatus {
            point_id: bytes[0],
            x: read_le_u16(bytes[1], bytes[2]),
            y: read_le_u16(bytes[3], bytes[4]),
            area: read_le_u16(bytes[5], bytes[6]),
            padding: bytes[7],
        }
    }
}

} // verus!
