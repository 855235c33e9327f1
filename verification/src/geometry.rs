//! Plain shapes and places of the play-field.

use vstd::prelude::*;

verus! {

/// The size of the display, in pixels.
#[derive(Clone, Copy, Debug, PartialEq, Eq, Structural)]
pub struct Window {
    pub width: u32,
    pub height: u32,
}

/// A point or a direction in the plane.
#[derive(Clone, Copy, Debug, PartialEq, Eq, Structural)]
pub struct Vec2 {
    pub x: i64,
    pub y: i64,
}

impl Vec2 {
    /// The origin.
    pub open spec fn zero() -> Vec2 {
        Vec2 { x: 0, y: 0 }
    }
}

/// The width of every despawn area.
pub const DESPAWN_AREA_WIDTH: i64 = 50;

/// A sensor far behind the visible field. Whatever scrolls into it is removed.
///
/// The area is centred on `(x, 0)` and is `width` wide and `height` high.
#[derive(Clone, Copy, Debug, PartialEq, Eq, Structural)]
pub struct DespawnArea {
    pub id: u32,
    pub x: i64,
    pub width: i64,
    pub height: i64,
}

impl DespawnArea {
    /// The area with its centre at `(x, 0)` that is twice as high as `window`.
    pub open spec fn at(id: u32, x: int, window: Window) -> DespawnArea {
        DespawnArea { id, x: x as i64, width: DESPAWN_AREA_WIDTH, height: (2 * window.height) as i64 }
    }
}

} // verus!
