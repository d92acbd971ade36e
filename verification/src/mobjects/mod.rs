//! Drawable objects and the scene-to-surface coordinate change.
//!
//! Scene coordinates put the origin in the middle of the scene; the drawing
//! surface puts it in the top-left corner with the y axis pointing down. The
//! conversions here shift and flip accordingly. Coordinates are fixed-point
//! scene units (see [`crate::COORD_UNIT`]); the rasterizing backend turns
//! them into its own pixel scalars at the drawing boundary.

use crate::MAX_COORD;
use vstd::prelude::*;

pub mod formula;
pub mod path;
pub mod text;

verus! {

/// Shifts a scene x coordinate to surface coordinates: the origin moves from
/// the scene's centre to its left edge.
pub fn coordinate_change_x(position_x: i64, scene_width: i64) -> (r: i64)
    requires
        0 <= scene_width <= MAX_COORD,
        -MAX_COORD <= position_x <= MAX_COORD,
    ensures
        r == scene_width / 2 + position_x,
{
    scene_width / 2 + position_x
}

/// Shifts a scene y coordinate to surface coordinates: the origin moves from
/// the scene's centre to its top edge, and the axis flips to point down.
pub fn coordinate_change_y(position_y: i64, scene_height: i64) -> (r: i64)
    requires
        0 <= scene_height <= MAX_COORD,
        -MAX_COORD <= position_y <= MAX_COORD,
    ensures
        r == scene_height / 2 - position_y,
{
    scene_height / 2 - position_y
}

/// How a drawable object is stroked and filled.
#[derive(Debug, Clone, Copy)]
pub struct DrawConfig {
    stoke_width: i64,
    fill: bool,
    color: crate::Color,
}

impl DrawConfig {
    /// The stroke width, in fixed-point scene units.
    pub closed spec fn spec_stoke_width(self) -> i64 {
        self.stoke_width
    }

    /// Whether the shape is filled.
    pub closed spec fn spec_fill(self) -> bool {
        self.fill
    }

    /// The stroke width, in fixed-point scene units.
    pub fn stoke_width(&self) -> (r: i64)
        ensures
            r == self.spec_stoke_width(),
    {
        self.stoke_width
    }

    /// Whether the shape is filled.
    pub fn fill(&self) -> (r: bool)
        ensures
            r == self.spec_fill(),
    {
        self.fill
    }

    /// The stroke color.
    pub closed spec fn spec_color(self) -> crate::Color {
        self.color
    }

    /// The stroke color's red, green, blue and alpha bytes.
    pub fn color_rgba(&self) -> (t: (u8, u8, u8, u8))
        ensures
            self.spec_color() == (crate::Color { r: t.0, g: t.1, b: t.2, a: t.3 }),
    {
        self.color.rgba()
    }
}

impl Default for DrawConfig {
    /// A quarter scene unit of stroke, filled, in the default color.
    fn default() -> (c: Self)
        ensures
            c.spec_stoke_width() == crate::COORD_UNIT / 4,
            c.spec_fill(),
            c.spec_color() == (crate::Color { r: 0x33, g: 0xcc, b: 0xff, a: 0xff }),
    {
        DrawConfig { stoke_width: crate::COORD_UNIT / 4, fill: true, color: Default::default() }
    }
}

} // verus!
