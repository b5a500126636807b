//! A small 2D physics demo library: a keyboard-driven ball under a constant
//! synthetic gravity term, bouncing on a static floor with restitution.
//!
//! The library holds the verified core of the demo: the scene records created
//! at startup, the per-frame reset command handler, and the per-frame motion
//! controller that turns key state and the frame time delta into a
//! displacement request. The engine and physics runtime around it (windowing,
//! input polling, collision resolution, rendering) drive these functions once
//! per frame and apply the displacement requests they produce.
//!
//! All quantities are exact rational scalars, so every per-frame computation
//! is stated and proved precisely.

use vstd::prelude::*;

pub mod input;
pub mod laws;
pub mod motion;
pub mod systems;
pub mod world;

verus! {

/// An exact rational scalar: the value `num / den`, with `den > 0`.
#[derive(Clone, Copy, Debug, PartialEq, Eq, Structural)]
pub struct Frac {
    pub num: i64,
    pub den: i64,
}

impl Frac {
    /// Well-formedness: the denominator is positive.
    pub open spec fn wf(self) -> bool {
        self.den > 0
    }

    /// A ratio with an explicit denominator; `None` when the denominator is
    /// not positive, and only then.
    pub fn new(num: i64, den: i64) -> (r: Option<Frac>)
        ensures
            den > 0 <==> r is Some,
            r matches Some(f) ==> f.num == num && f.den == den && f.wf(),
    {
        if den > 0 {
            Some(Frac { num, den })
        } else {
            None
        }
    }
}

/// A two-component vector of exact scalars, as handed to the movement
/// controller: `x` to the right, `y` upward.
#[derive(Clone, Copy, Debug, PartialEq, Eq, Structural)]
pub struct Vec2f {
    pub x: Frac,
    pub y: Frac,
}

} // verus!
