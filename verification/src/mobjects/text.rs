//! Text objects: configuration of where glyph outlines come from.

use vstd::prelude::*;

verus! {

/// Which font a text object is shaped with: the system default, a font
/// found by name, or a font file on disk.
pub enum FontConfig {
    Default,
    FontName(String),
    FontFile(String),
}

} // verus!
