//! Positions, and what a survey of the ground reports about the steps that
//! can be taken from one.
//!
//! The numbers behind a position are worked out elsewhere. This library
//! carries positions and compares them, and never computes with them.
use vstd::prelude::*;
use crate::directions::Directions;

verus! {

/// A position on the projected surface. Each field holds the 64 bits of a
/// double-precision number.
#[derive(Clone, Copy, Debug, PartialEq, Eq, Structural)]
pub struct Coordinate {
    pub x: u64,
    pub y: u64,
}

/// What lies one step away from a position, along one axis.
#[derive(Clone, Copy, Debug, PartialEq, Eq, Structural)]
pub enum Prospect {
    /// An obstacle stands there, and the step cannot be taken.
    Blocked,
    /// The way is free.
    Open {
        /// Where the step ends, the edges of the map wrapped.
        landing: Coordinate,
        /// The step ran over the northern edge of the map.
        crossed_north: bool,
        /// The step ran over the southern edge of the map.
        crossed_south: bool,
    },
}

/// The four steps that can be taken from a position, one along each axis
/// in each sense.
#[derive(Clone, Copy, Debug, PartialEq, Eq, Structural)]
pub struct Surroundings {
    /// One step toward larger `y`.
    pub y_plus: Prospect,
    /// One step toward smaller `y`.
    pub y_minus: Prospect,
    /// One step toward larger `x`.
    pub x_plus: Prospect,
    /// One step toward smaller `x`.
    pub x_minus: Prospect,
}

impl Coordinate {
    /// The point where both coordinates are zero.
    pub open spec fn origin() -> Coordinate {
        Coordinate { x: 0, y: 0 }
    }
}

impl Prospect {
    /// The heading of a rover that faced `facing` before it took this step:
    /// each edge that the step ran over turns the rover about.
    pub open spec fn facing_after(&self, facing: Directions) -> Directions {
        match *self {
            Prospect::Blocked => facing,
            Prospect::Open { landing, crossed_north, crossed_south } => {
                let past_north = if crossed_north {
                    facing.opposite()
                } else {
                    facing
                };
                if crossed_south {
                    past_north.opposite()
                } else {
                    past_north
                }
            },
        }
    }
}

impl Surroundings {
    /// The step that leads toward `bearing`: north is larger `y`, south
    /// smaller `y`, east larger `x`, west smaller `x`.
    pub open spec fn spec_toward(&self, bearing: Directions) -> Prospect {
        match bearing {
            Directions::N => self.y_plus,
            Directions::S => self.y_minus,
            Directions::E => self.x_plus,
            Directions::W => self.x_minus,
        }
    }

    #[verifier::when_used_as_spec(spec_toward)]
    pub fn toward(&self, bearing: Directions) -> (r: Prospect)
        ensures
            r == self.spec_toward(bearing),
    {
        match bearing {
            Directions::N => self.y_plus,
            Directions::S => self.y_minus,
            Directions::E => self.x_plus,
            Directions::W => self.x_minus,
        }
    }
}

} // verus!
