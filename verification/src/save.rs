//! The brick record as the save layer hands it over.
//!
//! Only the fields that orientation and size queries read are kept here.

use vstd::prelude::*;

verus! {

/// The face normal along which a brick's primary axis points.
#[derive(Clone, Copy, Debug, PartialEq, Eq, Structural)]
pub enum Direction {
    XPositive,
    XNegative,
    YPositive,
    YNegative,
    ZPositive,
    ZNegative,
}

/// The quarter turn of a brick about its direction.
#[derive(Clone, Copy, Debug, PartialEq, Eq, Structural)]
pub enum Rotation {
    Deg0,
    Deg90,
    Deg180,
    Deg270,
}

/// How a brick's dimensions are known.
#[derive(Clone, Copy, Debug, PartialEq, Eq, Structural)]
pub enum Size {
    /// The dimensions come from the catalog, by the brick's asset name.
    Empty,
    /// The dimensions are carried by the brick itself, in its local frame.
    Procedural(u32, u32, u32),
}

/// A placed brick.
#[derive(Clone, Copy, Debug, PartialEq, Eq, Structural)]
pub struct Brick {
    /// Index of the brick's asset name in the save's list of asset names.
    pub asset_name_index: u32,
    /// The brick's own dimensions, if it carries any.
    pub size: Size,
    /// The face normal that the brick points along.
    pub direction: Direction,
    /// The brick's spin about its direction.
    pub rotation: Rotation,
}

impl Direction {
    /// What [`Direction::index`] computes.
    pub open spec fn index_spec(self) -> u8 {
        match self {
            Direction::XPositive => 0,
            Direction::XNegative => 1,
            Direction::YPositive => 2,
            Direction::YNegative => 3,
            Direction::ZPositive => 4,
            Direction::ZNegative => 5,
        }
    }

    /// The direction's index, from 0 to 5, in the order of the variants.
    #[verifier::when_used_as_spec(index_spec)]
    pub fn index(self) -> (r: u8)
        ensures
            r == self.index_spec(),
            r < 6,
    {
        match self {
            Direction::XPositive => 0,
            Direction::XNegative => 1,
            Direction::YPositive => 2,
            Direction::YNegative => 3,
            Direction::ZPositive => 4,
            Direction::ZNegative => 5,
        }
    }

    /// Whether the direction lies along the X axis.
    pub open spec fn along_x(self) -> bool {
        self == Direction::XPositive || self == Direction::XNegative
    }

    /// Whether the direction lies along the Y axis.
    pub open spec fn along_y(self) -> bool {
        self == Direction::YPositive || self == Direction::YNegative
    }
}

impl Rotation {
    /// What [`Rotation::index`] computes.
    pub open spec fn index_spec(self) -> u8 {
        match self {
            Rotation::Deg0 => 0,
            Rotation::Deg90 => 1,
            Rotation::Deg180 => 2,
            Rotation::Deg270 => 3,
        }
    }

    /// The rotation's index, from 0 to 3: the number of quarter turns.
    #[verifier::when_used_as_spec(index_spec)]
    pub fn index(self) -> (r: u8)
        ensures
            r == self.index_spec(),
            r < 4,
    {
        match self {
            Rotation::Deg0 => 0,
            Rotation::Deg90 => 1,
            Rotation::Deg180 => 2,
            Rotation::Deg270 => 3,
        }
    }

    /// Whether the rotation is an odd number of quarter turns.
    pub open spec fn is_odd(self) -> bool {
        self == Rotation::Deg90 || self == Rotation::Deg270
    }
}

} // verus!
