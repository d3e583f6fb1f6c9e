//! The fixed set of rendering layers a sprite can be placed on.

use vstd::prelude::*;

verus! {

/// A rendering layer; sprites default to `Background`.
#[derive(Clone, Copy, PartialEq, Eq, Structural, Debug)]
pub enum Layer {
    Background,
    Fail,
    Pass,
    Foreground,
}

impl Layer {
    /// The layer's name as it appears in a sprite header line.
    pub open spec fn name_spec(self) -> Seq<char> {
        match self {
            Layer::Background => ("Background")@,
            Layer::Fail => ("Fail")@,
            Layer::Pass => ("Pass")@,
            Layer::Foreground => ("Foreground")@,
        }
    }

    /// Returns the layer's name.
    pub fn name(&self) -> (r: &'static str)
        ensures
            r@ == self.name_spec(),
    {
        match self {
            Layer::Background => "Background",
            Layer::Fail => "Fail",
            Layer::Pass => "Pass",
            Layer::Foreground => "Foreground",
        }
    }
}

} // verus!
