//! The fixed set of anchor origins: the point of the image that a sprite's
//! position refers to.

use vstd::prelude::*;

verus! {

/// An anchor origin; sprites default to `Centre`.
#[derive(Clone, Copy, PartialEq, Eq, Structural, Debug)]
pub enum Origin {
    TopLeft,
    TopCentre,
    TopRight,
    CentreLeft,
    Centre,
    CentreRight,
    BottomLeft,
    BottomCentre,
    BottomRight,
}

impl Origin {
    /// The origin's name as it appears in a sprite header line.
    pub open spec fn name_spec(self) -> Seq<char> {
        match self {
            Origin::TopLeft => ("TopLeft")@,
            Origin::TopCentre => ("TopCentre")@,
            Origin::TopRight => ("TopRight")@,
            Origin::CentreLeft => ("CentreLeft")@,
            Origin::Centre => ("Centre")@,
            Origin::CentreRight => ("CentreRight")@,
            Origin::BottomLeft => ("BottomLeft")@,
            Origin::BottomCentre => ("BottomCentre")@,
            Origin::BottomRight => ("BottomRight")@,
        }
    }

    /// Returns the origin's name.
    pub fn name(&self) -> (r: &'static str)
        ensures
            r@ == self.name_spec(),
    {
        match self {
            Origin::TopLeft => "TopLeft",
            Origin::TopCentre => "TopCentre",
            Origin::TopRight => "TopRight",
            Origin::CentreLeft => "CentreLeft",
            Origin::Centre => "Centre",
            Origin::CentreRight => "CentreRight",
            Origin::BottomLeft => "BottomLeft",
            Origin::BottomCentre => "BottomCentre",
            Origin::BottomRight => "BottomRight",
        }
    }
}

} // verus!
