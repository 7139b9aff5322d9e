//! Per-frame global shader inputs.

use vstd::prelude::*;
use crate::fixed::{Fx, fx_clamp_v};

verus! {

/// Ghost image of the per-frame uniforms.
pub ghost struct GUniforms {
    pub time: int,
    pub res_x: int,
    pub res_y: int,
    pub temp: int,
    pub intensity: int,
}

/// Per-frame globals visible to the fragment shaders: elapsed time, viewport
/// resolution, and the two user controls.
#[derive(Clone, Copy, PartialEq, Eq, Structural, Debug)]
pub struct Uniforms {
    pub time: Fx,
    pub res_x: Fx,
    pub res_y: Fx,
    pub temp: Fx,
    pub intensity: Fx,
}

impl View for Uniforms {
    type V = GUniforms;

    open spec fn view(&self) -> GUniforms {
        GUniforms {
            time: self.time@,
            res_x: self.res_x@,
            res_y: self.res_y@,
            temp: self.temp@,
            intensity: self.intensity@,
        }
    }
}

impl Uniforms {
    /// Assemble the per-frame uniforms, clamping the temperature control
    /// into `[0, 1]` and the intensity control into `[0.2, 2.0]`.
    pub fn new(time: Fx, res_x: Fx, res_y: Fx, temp: Fx, intensity: Fx) -> (r: Uniforms)
        ensures
            r@.time == time@,
            r@.res_x == res_x@,
            r@.res_y == res_y@,
            r@.temp == fx_clamp_v(temp@, 0, 65536),
            r@.intensity == fx_clamp_v(intensity@, 13107, 131072),
    {
        Uniforms {
            time,
            res_x,
            res_y,
            temp: temp.fx_clamp(Fx::zero(), Fx::one()),
            intensity: intensity.fx_clamp(Fx::from_bits(13107), Fx::from_bits(131072)),
        }
    }
}

} // verus!
