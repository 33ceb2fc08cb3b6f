use vstd::prelude::*;

verus! {

/// Parameters of the rainbow pattern: how fast the hues travel along the strip.
#[derive(Clone, Copy, Debug, PartialEq, Eq, Structural)]
pub struct RainbowAnimation {
    pub speed: u32,
}

/// Parameters of a single steady color, as packed 0xRRGGBB.
#[derive(Clone, Copy, Debug, PartialEq, Eq, Structural)]
pub struct SolidAnimation {
    pub color: u32,
}

/// The closed set of animation patterns a device can render, each with its own parameters.
#[derive(Clone, Copy, Debug, PartialEq, Eq, Structural)]
pub enum AnimationDescriptor {
    Rainbow(RainbowAnimation),
    Solid(SolidAnimation),
}

/// The pattern a device shows before anything was chosen: a rainbow with default parameters.
pub open spec fn default_animation() -> AnimationDescriptor {
    AnimationDescriptor::Rainbow(RainbowAnimation { speed: 0 })
}

impl Default for AnimationDescriptor {
    fn default() -> (r: Self)
        ensures
            r == default_animation(),
    {
        AnimationDescriptor::Rainbow(RainbowAnimation { speed: 0 })
    }
}

} // verus!
