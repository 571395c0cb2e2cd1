//! The rover: a position, a heading, and the four moves that change them.
use vstd::prelude::*;
use vstd::string::*;
use crate::commands::Command;
use crate::directions::{four_quarter_turns_restore, turns_cancel, Directions};
use crate::terrain::{Coordinate, Prospect, Surroundings};

verus! {

/// A rover on the surface.
#[derive(Clone, Copy, Debug, PartialEq, Eq, Structural)]
pub struct MarsRover {
    pub position: Coordinate,
    pub direction: Directions,
}

/// What a rover says when an obstacle stops it.
pub open spec fn obstacle_message() -> Seq<char> {
    "Obstacle detected, aborting!"@
}

/// The result of a move as contracts speak of it: an error by the
/// characters of its message.
pub open spec fn shown(r: Result<Coordinate, String>) -> Result<Coordinate, Seq<char>> {
    match r {
        Ok(position) => Ok(position),
        Err(message) => Err(message@),
    }
}

impl MarsRover {
    /// The rover after it has tried one step toward `bearing`. A blocked step
    /// leaves it as it was. A free step puts it on the landing, and turns it
    /// about once for each edge of the map that the step ran over.
    pub open spec fn after_step(&self, bearing: Directions, around: &Surroundings) -> MarsRover {
        match around.toward(bearing) {
            Prospect::Blocked => *self,
            Prospect::Open { landing, crossed_north, crossed_south } => MarsRover {
                position: landing,
                direction: around.toward(bearing).facing_after(self.direction),
            },
        }
    }

    /// What one step toward `bearing` hands back: the landing of a free step,
    /// the obstacle message for a blocked one.
    pub open spec fn step_report(bearing: Directions, around: &Surroundings) -> Result<
        Coordinate,
        Seq<char>,
    > {
        match around.toward(bearing) {
            Prospect::Blocked => Err(obstacle_message()),
            Prospect::Open { landing, crossed_north, crossed_south } => Ok(landing),
        }
    }

    /// The rover after `command`, on the ground that `around` describes.
    pub open spec fn after(&self, command: Command, around: &Surroundings) -> MarsRover {
        match command {
            Command::Forward => self.after_step(self.direction, around),
            Command::Backward => self.after_step(self.direction.opposite(), around),
            Command::Left => MarsRover {
                position: self.position,
                direction: self.direction.left(),
            },
            Command::Right => MarsRover {
                position: self.position,
                direction: self.direction.right(),
            },
        }
    }

    /// What `command` hands back, on the ground that `around` describes.
    pub open spec fn report(&self, command: Command, around: &Surroundings) -> Result<
        Coordinate,
        Seq<char>,
    > {
        match command {
            Command::Forward => Self::step_report(self.direction, around),
            Command::Backward => Self::step_report(self.direction.opposite(), around),
            Command::Left => Ok(self.position),
            Command::Right => Ok(self.position),
        }
    }

    /// A rover at the origin, facing north.
    pub fn new() -> (r: MarsRover)
        ensures
            r.position == Coordinate::origin(),
            r.direction == Directions::N,
    {
        MarsRover { position: Coordinate { x: 0, y: 0 }, direction: Directions::N }
    }

    /// One step in the direction the rover faces, over the ground that
    /// `around` describes about its position. An obstacle on the way stops
    /// the rover where it stands.
    pub fn forward(&mut self, around: &Surroundings) -> (r: Result<Coordinate, String>)
        ensures
            *final(self) == old(self).after(Command::Forward, around),
            shown(r) == old(self).report(Command::Forward, around),
    {
        let bearing = self.direction;
        self.travel(bearing, around)
    }

    /// One step against the direction the rover faces, over the ground that
    /// `around` describes about its position. The rover goes on facing the
    /// way it did, unless the step takes it over an edge.
    pub fn backward(&mut self, around: &Surroundings) -> (r: Result<Coordinate, String>)
        ensures
            *final(self) == old(self).after(Command::Backward, around),
            shown(r) == old(self).report(Command::Backward, around),
    {
        let bearing = self.direction.opposite();
        self.travel(bearing, around)
    }

    /// A quarter turn counter-clockwise, on the spot.
    pub fn left(&mut self) -> (r: Result<Coordinate, String>)
        ensures
            final(self).direction == old(self).direction.left(),
            final(self).position == old(self).position,
            r == Ok::<Coordinate, String>(old(self).position),
    {
        self.direction = self.direction.left();
        Ok(self.position)
    }

    /// A quarter turn clockwise, on the spot.
    pub fn right(&mut self) -> (r: Result<Coordinate, String>)
        ensures
            final(self).direction == old(self).direction.right(),
            final(self).position == old(self).position,
            r == Ok::<Coordinate, String>(old(self).position),
    {
        self.direction = self.direction.right();
        Ok(self.position)
    }

    /// Carries out one command.
    pub fn execute(&mut self, command: Command, around: &Surroundings) -> (r: Result<
        Coordinate,
        String,
    >)
        ensures
            *final(self) == old(self).after(command, around),
            shown(r) == old(self).report(command, around),
    {
        match command {
            Command::Forward => self.forward(around),
            Command::Backward => self.backward(around),
            Command::Left => self.left(),
            Command::Right => self.right(),
        }
    }

    /// Writes the rover's state, the coordinates as `x` and `y` spell them.
    pub fn to_string(&self, x: &str, y: &str) -> (r: String)
        ensures
            r@ == "position: "@ + x@ + " "@ + y@ + "\ndirection: "@ + self.direction.letter(),
    {
        let mut r = "position: ".to_owned();
        r.append(x);
        r.append(" ");
        r.append(y);
        r.append("\ndirection: ");
        let letter = self.direction.to_string();
        r.append(letter.as_str());
        r
    }

    fn travel(&mut self, bearing: Directions, around: &Surroundings) -> (r: Result<
        Coordinate,
        String,
    >)
        ensures
            *final(self) == old(self).after_step(bearing, around),
            shown(r) == Self::step_report(bearing, around),
    {
        match around.toward(bearing) {
            Prospect::Blocked => Err("Obstacle detected, aborting!".to_owned()),
            Prospect::Open { landing, crossed_north, crossed_south } => {
                self.position = landing;
                if crossed_north {
                    self.direction = self.direction.opposite();
                }
                if crossed_south {
                    self.direction = self.direction.opposite();
                }
                Ok(self.position)
            },
        }
    }
}

impl Default for MarsRover {
    fn default() -> (r: MarsRover)
        ensures
            r.position == Coordinate::origin(),
            r.direction == Directions::N,
    {
        MarsRover::new()
    }
}

/// A move that the rover refuses leaves the rover as it was.
pub proof fn refused_move_changes_nothing(rover: MarsRover, command: Command, around: Surroundings)
    requires
        rover.report(command, &around) is Err,
    ensures
        rover.after(command, &around) == rover,
{
}

/// A turn never fails, and leaves the rover where it stands.
pub proof fn turns_stay_in_place(rover: MarsRover, command: Command, around: Surroundings)
    requires
        command == Command::Left || command == Command::Right,
    ensures
        rover.report(command, &around) == Ok::<Coordinate, Seq<char>>(rover.position),
        rover.after(command, &around).position == rover.position,
{
}

/// The rover's turns come round as those of its heading do: a turn one way
/// undoes a turn the other way, and four turns the same way leave the rover
/// as it was.
pub proof fn rover_turns_come_round(rover: MarsRover, around: Surroundings)
    ensures
        rover.after(Command::Left, &around).after(Command::Right, &around) == rover,
        rover.after(Command::Right, &around).after(Command::Left, &around) == rover,
        rover.after(Command::Left, &around).after(Command::Left, &around).after(
            Command::Left,
            &around,
        ).after(Command::Left, &around) == rover,
        rover.after(Command::Right, &around).after(Command::Right, &around).after(
            Command::Right,
            &around,
        ).after(Command::Right, &around) == rover,
{
    turns_cancel(rover.direction);
    four_quarter_turns_restore(rover.direction);
}

/// Backward is forward for a rover that faces the other way: the same
/// ground is tried, the same report comes back and the rover ends in the
/// same place. Only the heading differs, and it stays the other way round.
pub proof fn backward_is_forward_turned_about(rover: MarsRover, around: Surroundings)
    ensures
        ({
            let turned = MarsRover {
                position: rover.position,
                direction: rover.direction.opposite(),
            };
            &&& rover.report(Command::Backward, &around) == turned.report(
                Command::Forward,
                &around,
            )
            &&& rover.after(Command::Backward, &around).position == turned.after(
                Command::Forward,
                &around,
            ).position
            &&& rover.after(Command::Backward, &around).direction == turned.after(
                Command::Forward,
                &around,
            ).direction.opposite()
        }),
{
}

} // verus!
