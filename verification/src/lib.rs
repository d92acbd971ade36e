//! A small vector-animation library: scenes of drawable objects are rendered
//! frame by frame, and the finished frames are streamed through a batching
//! pipeline into a video encoder sink.
//!
//! The heart of the crate is [`video_backend`]: a bounded block-buffered
//! queue, a producer-facing controller that batches frames into blocks, a
//! worker state machine that drains the queue into an encoder sink, and the
//! deterministic construction of the encoder invocation.

use vstd::prelude::*;

pub mod animation;
pub mod camera;
pub mod mobjects;
pub mod video_backend;

verus! {

/// Scene geometry is measured in logical scene units held in signed
/// fixed-point: a coordinate value counts `COORD_UNIT` raw ticks per unit.
pub const COORD_UNIT: i64 = 1024;

/// Magnitude bound on fixed-point coordinates accepted by the coordinate
/// conversions; keeps every intermediate product inside `i64`.
pub const MAX_COORD: i64 = 0x4000_0000;

/// Bound on the pixels-per-unit scale factor of a scene.
pub const MAX_SCALE: i64 = 0x100000;

/// An RGBA color, one byte per channel.
#[derive(Clone, Copy, Debug, PartialEq, Eq, Structural)]
pub struct Color {
    pub r: u8,
    pub g: u8,
    pub b: u8,
    pub a: u8,
}

impl Color {
    pub fn new(r: u8, g: u8, b: u8, a: u8) -> (c: Self)
        ensures
            c == (Color { r, g, b, a }),
    {
        Self { r, g, b, a }
    }

    pub fn rgba(&self) -> (t: (u8, u8, u8, u8))
        ensures
            *self == (Color { r: t.0, g: t.1, b: t.2, a: t.3 }),
    {
        (self.r, self.g, self.b, self.a)
    }
}

impl Default for Color {
    /// The default drawing color: a light sky blue, fully opaque.
    fn default() -> (c: Self)
        ensures
            c == (Color { r: 0x33, g: 0xcc, b: 0xff, a: 0xff }),
    {
        Self { r: 0x33, g: 0xcc, b: 0xff, a: 0xff }
    }
}

/// Geometry of a scene: its logical size in fixed-point scene units, the
/// pixel size of the rendered output, and how many pixels one scene unit
/// spans.
pub struct SceneConfig {
    pub width: i64,
    pub height: i64,
    pub output_width: u32,
    pub output_height: u32,
    pub scale_factor: i64,
}

impl SceneConfig {
    /// A scene configuration the coordinate conversions accept.
    pub open spec fn wf(self) -> bool {
        &&& 0 <= self.width <= MAX_COORD
        &&& 0 <= self.height <= MAX_COORD
        &&& 0 <= self.scale_factor <= MAX_SCALE
    }

    /// A scene x coordinate as a fixed-point pixel coordinate on the output
    /// surface.
    pub fn convert_coord_x(&self, x: i64) -> (r: i64)
        requires
            self.wf(),
            -MAX_COORD <= x <= MAX_COORD,
        ensures
            r == (self.width / 2 + x) * self.scale_factor,
    {
        let shifted = crate::mobjects::coordinate_change_x(x, self.width);
        proof {
            assert(shifted * self.scale_factor <= 0xC000_0000i64 * 0x100000i64
                && shifted * self.scale_factor >= -0xC000_0000i64 * 0x100000i64)
                by (nonlinear_arith)
                requires
                    -0xC000_0000i64 <= shifted <= 0xC000_0000i64,
                    0 <= self.scale_factor <= 0x100000i64,
            ;
        }
        shifted * self.scale_factor
    }

    /// A scene y coordinate as a fixed-point pixel coordinate on the output
    /// surface, with the axis flipped to point down.
    pub fn convert_coord_y(&self, y: i64) -> (r: i64)
        requires
            self.wf(),
            -MAX_COORD <= y <= MAX_COORD,
        ensures
            r == (self.height / 2 - y) * self.scale_factor,
    {
        let shifted = crate::mobjects::coordinate_change_y(y, self.height);
        proof {
            assert(shifted * self.scale_factor <= 0xC000_0000i64 * 0x100000i64
                && shifted * self.scale_factor >= -0xC000_0000i64 * 0x100000i64)
                by (nonlinear_arith)
                requires
                    -0xC000_0000i64 <= shifted <= 0xC000_0000i64,
                    0 <= self.scale_factor <= 0x100000i64,
            ;
        }
        shifted * self.scale_factor
    }
}

impl Default for SceneConfig {
    /// A 16 by 9 unit scene rendered at 1920 by 1080 pixels: 120 pixels per
    /// scene unit.
    fn default() -> (c: Self)
        ensures
            c.wf(),
            c.width == 16 * COORD_UNIT,
            c.height == 9 * COORD_UNIT,
            c.output_width == 1920,
            c.output_height == 1080,
            c.scale_factor == 120,
    {
        SceneConfig {
            width: 16 * COORD_UNIT,
            height: 9 * COORD_UNIT,
            output_width: 1920,
            output_height: 1080,
            scale_factor: 120,
        }
    }
}

/// A scene: the ordered collection of objects drawn on every frame. The
/// element type is the caller's drawable object representation.
pub struct Scene<M> {
    pub mobjects: Vec<M>,
}

impl<M> Scene<M> {
    /// An empty scene.
    pub fn new() -> (s: Self)
        ensures
            s.mobjects@ == Seq::<M>::empty(),
    {
        Scene { mobjects: Vec::new() }
    }

    /// Appends one object at the end of the draw order.
    pub fn add(&mut self, mobject: M)
        ensures
            final(self).mobjects@ == old(self).mobjects@.push(mobject),
    {
        self.mobjects.push(mobject);
    }
}

impl<M: Clone> Scene<M> {
    /// Appends a clone of a shared object at the end of the draw order; the
    /// objects already in the scene stay as they are.
    pub fn add_ref(&mut self, mobject_ref: &M)
        ensures
            final(self).mobjects@.len() == old(self).mobjects@.len() + 1,
            forall|i: int|
                0 <= i < old(self).mobjects@.len() ==> final(self).mobjects@[i] == old(
                    self,
                ).mobjects@[i],
            vstd::pervasive::cloned(*mobject_ref, final(self).mobjects@.last()),
    {
        self.mobjects.push(mobject_ref.clone());
    }
}

} // verus!
