//! Fragments: one shaded pixel candidate produced by the rasterizer.

use vstd::prelude::*;
use crate::fixed::Fx;
use crate::vec3::{V3, Gv3};

verus! {

/// Ghost image of a fragment.
pub ghost struct GFragment {
    pub x: int,
    pub y: int,
    pub depth: int,
    pub obj: Gv3,
}

/// A fragment for the shaded path: pixel coordinates, interpolated NDC
/// depth, and the interpolated object-space position the fragment shaders
/// sample.
#[derive(Clone, Copy, PartialEq, Eq, Structural, Debug)]
pub struct Fragment {
    pub x: u32,
    pub y: u32,
    pub depth: Fx,
    pub obj: V3,
}

impl View for Fragment {
    type V = GFragment;

    open spec fn view(&self) -> GFragment {
        GFragment { x: self.x as int, y: self.y as int, depth: self.depth@, obj: self.obj@ }
    }
}

/// Ghost image of a flat-colored fragment.
pub ghost struct GSkyFragment {
    pub x: int,
    pub y: int,
    pub depth: int,
    pub color: Gv3,
}

/// A fragment for the background fast path: pixel coordinates, interpolated
/// NDC depth, and an interpolated flat color instead of a surface position.
#[derive(Clone, Copy, PartialEq, Eq, Structural, Debug)]
pub struct SkyFragment {
    pub x: u32,
    pub y: u32,
    pub depth: Fx,
    pub color: V3,
}

impl View for SkyFragment {
    type V = GSkyFragment;

    open spec fn view(&self) -> GSkyFragment {
        GSkyFragment { x: self.x as int, y: self.y as int, depth: self.depth@, color: self.color@ }
    }
}

} // verus!
