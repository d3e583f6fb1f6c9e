//! The closed set of interpolation curve kinds. Each maps to the fixed
//! small integer identifier the renderer understands; `Linear` has id 0
//! and is the implicit easing of every static event.

use vstd::prelude::*;

verus! {

/// An interpolation curve kind.
#[derive(Clone, Copy, PartialEq, Eq, Structural, Debug)]
pub enum Easing {
    Linear,
    Out,
    In,
    QuadIn,
    QuadOut,
    QuadInOut,
    CubicIn,
    CubicOut,
    CubicInOut,
    QuartIn,
    QuartOut,
    QuartInOut,
    QuintIn,
    QuintOut,
    QuintInOut,
    SineIn,
    SineOut,
    SineInOut,
    ExpoIn,
    ExpoOut,
    ExpoInOut,
    CircIn,
    CircOut,
    CircInOut,
    ElasticIn,
    ElasticOut,
    ElasticHalfOut,
    ElasticQuarterOut,
    ElasticInOut,
    BackIn,
    BackOut,
    BackInOut,
    BounceIn,
    BounceOut,
    BounceInOut,
}

impl Easing {
    /// The renderer identifier of this curve kind.
    pub open spec fn id_spec(self) -> nat {
        match self {
            Easing::Linear => 0,
            Easing::Out => 1,
            Easing::In => 2,
            Easing::QuadIn => 3,
            Easing::QuadOut => 4,
            Easing::QuadInOut => 5,
            Easing::CubicIn => 6,
            Easing::CubicOut => 7,
            Easing::CubicInOut => 8,
            Easing::QuartIn => 9,
            Easing::QuartOut => 10,
            Easing::QuartInOut => 11,
            Easing::QuintIn => 12,
            Easing::QuintOut => 13,
            Easing::QuintInOut => 14,
            Easing::SineIn => 15,
            Easing::SineOut => 16,
            Easing::SineInOut => 17,
            Easing::ExpoIn => 18,
            Easing::ExpoOut => 19,
            Easing::ExpoInOut => 20,
            Easing::CircIn => 21,
            Easing::CircOut => 22,
            Easing::CircInOut => 23,
            Easing::ElasticIn => 24,
            Easing::ElasticOut => 25,
            Easing::ElasticHalfOut => 26,
            Easing::ElasticQuarterOut => 27,
            Easing::ElasticInOut => 28,
            Easing::BackIn => 29,
            Easing::BackOut => 30,
            Easing::BackInOut => 31,
            Easing::BounceIn => 32,
            Easing::BounceOut => 33,
            Easing::BounceInOut => 34,
        }
    }

    /// Returns the fixed identifier of the curve kind: total and pure.
    pub fn id(&self) -> (r: usize)
        ensures
            r as nat == self.id_spec(),
    {
        match self {
            Easing::Linear => 0,
            Easing::Out => 1,
            Easing::In => 2,
            Easing::QuadIn => 3,
            Easing::QuadOut => 4,
            Easing::QuadInOut => 5,
            Easing::CubicIn => 6,
            Easing::CubicOut => 7,
            Easing::CubicInOut => 8,
            Easing::QuartIn => 9,
            Easing::QuartOut => 10,
            Easing::QuartInOut => 11,
            Easing::QuintIn => 12,
            Easing::QuintOut => 13,
            Easing::QuintInOut => 14,
            Easing::SineIn => 15,
            Easing::SineOut => 16,
            Easing::SineInOut => 17,
            Easing::ExpoIn => 18,
            Easing::ExpoOut => 19,
            Easing::ExpoInOut => 20,
            Easing::CircIn => 21,
            Easing::CircOut => 22,
            Easing::CircInOut => 23,
            Easing::ElasticIn => 24,
            Easing::ElasticOut => 25,
            Easing::ElasticHalfOut => 26,
            Easing::ElasticQuarterOut => 27,
            Easing::ElasticInOut => 28,
            Easing::BackIn => 29,
            Easing::BackOut => 30,
            Easing::BackInOut => 31,
            Easing::BounceIn => 32,
            Easing::BounceOut => 33,
            Easing::BounceInOut => 34,
        }
    }
}

} // verus!
