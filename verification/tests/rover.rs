use mars_rover::{Command, Coordinate, Directions, MarsRover, Prospect, Surroundings};

const HERE: Coordinate = Coordinate { x: 40, y: 50 };

fn open(x: u64, y: u64) -> Prospect {
    Prospect::Open { landing: Coordinate { x, y }, crossed_north: false, crossed_south: false }
}

/// Four free steps, each with a landing of its own.
fn open_ground() -> Surroundings {
    Surroundings { y_plus: open(1, 1), y_minus: open(2, 2), x_plus: open(3, 3), x_minus: open(4, 4) }
}

fn walled_in() -> Surroundings {
    Surroundings {
        y_plus: Prospect::Blocked,
        y_minus: Prospect::Blocked,
        x_plus: Prospect::Blocked,
        x_minus: Prospect::Blocked,
    }
}

fn rover_facing(direction: Directions) -> MarsRover {
    MarsRover { position: HERE, direction }
}

#[test]
fn a_new_rover_is_at_the_origin_facing_north() {
    let rover = MarsRover::new();
    assert_eq!(rover.position, Coordinate { x: 0, y: 0 });
    assert_eq!(rover.direction, Directions::N);
    assert_eq!(MarsRover::default(), rover);
}

#[test]
fn toward_ties_the_compass_to_the_axes() {
    let around = open_ground();
    assert_eq!(around.toward(Directions::N), open(1, 1));
    assert_eq!(around.toward(Directions::S), open(2, 2));
    assert_eq!(around.toward(Directions::E), open(3, 3));
    assert_eq!(around.toward(Directions::W), open(4, 4));
}

#[test]
fn forward_lands_where_the_rover_faces() {
    let around = open_ground();
    let landings = [
        (Directions::N, Coordinate { x: 1, y: 1 }),
        (Directions::S, Coordinate { x: 2, y: 2 }),
        (Directions::E, Coordinate { x: 3, y: 3 }),
        (Directions::W, Coordinate { x: 4, y: 4 }),
    ];
    for (direction, landing) in landings {
        let mut rover = rover_facing(direction);
        assert_eq!(rover.forward(&around), Ok(landing));
        assert_eq!(rover.position, landing);
        assert_eq!(rover.direction, direction);
    }
}

#[test]
fn backward_lands_behind_the_rover_and_keeps_the_heading() {
    let around = open_ground();
    let landings = [
        (Directions::N, Coordinate { x: 2, y: 2 }),
        (Directions::S, Coordinate { x: 1, y: 1 }),
        (Directions::E, Coordinate { x: 4, y: 4 }),
        (Directions::W, Coordinate { x: 3, y: 3 }),
    ];
    for (direction, landing) in landings {
        let mut rover = rover_facing(direction);
        assert_eq!(rover.backward(&around), Ok(landing));
        assert_eq!(rover.position, landing);
        assert_eq!(rover.direction, direction);
    }
}

#[test]
fn backward_is_forward_for_a_rover_turned_about() {
    let around = open_ground();
    for direction in [Directions::N, Directions::S, Directions::E, Directions::W] {
        let mut backing = rover_facing(direction);
        let mut turned = rover_facing(direction.opposite());
        assert_eq!(backing.backward(&around), turned.forward(&around));
        assert_eq!(backing.position, turned.position);
        assert_eq!(backing.direction, turned.direction.opposite());
    }
}

#[test]
fn an_obstacle_ahead_stops_forward_and_changes_nothing() {
    let mut around = open_ground();
    around.x_plus = Prospect::Blocked;
    let mut rover = rover_facing(Directions::E);
    assert_eq!(rover.forward(&around), Err("Obstacle detected, aborting!".to_owned()));
    assert_eq!(rover, rover_facing(Directions::E));
    // the way back is free
    assert_eq!(rover.backward(&around), Ok(Coordinate { x: 4, y: 4 }));
}

#[test]
fn an_obstacle_behind_stops_backward_and_changes_nothing() {
    let mut around = open_ground();
    around.x_minus = Prospect::Blocked;
    let mut rover = rover_facing(Directions::E);
    assert_eq!(rover.backward(&around), Err("Obstacle detected, aborting!".to_owned()));
    assert_eq!(rover, rover_facing(Directions::E));
    assert_eq!(rover.forward(&around), Ok(Coordinate { x: 3, y: 3 }));
}

#[test]
fn a_walled_in_rover_can_still_turn() {
    let around = walled_in();
    let mut rover = rover_facing(Directions::N);
    assert!(rover.forward(&around).is_err());
    assert!(rover.backward(&around).is_err());
    assert_eq!(rover.left(), Ok(HERE));
    assert_eq!(rover.direction, Directions::W);
    assert_eq!(rover.right(), Ok(HERE));
    assert_eq!(rover.right(), Ok(HERE));
    assert_eq!(rover.direction, Directions::E);
    assert_eq!(rover.position, HERE);
}

#[test]
fn running_over_the_northern_edge_turns_the_rover_about() {
    let mut around = open_ground();
    around.y_plus = Prospect::Open {
        landing: Coordinate { x: 9, y: 8 },
        crossed_north: true,
        crossed_south: false,
    };
    let mut rover = rover_facing(Directions::N);
    assert_eq!(rover.forward(&around), Ok(Coordinate { x: 9, y: 8 }));
    assert_eq!(rover.direction, Directions::S);
}

#[test]
fn running_over_the_southern_edge_turns_the_rover_about() {
    let mut around = open_ground();
    around.y_minus = Prospect::Open {
        landing: Coordinate { x: 9, y: 8 },
        crossed_north: false,
        crossed_south: true,
    };
    let mut rover = rover_facing(Directions::S);
    assert_eq!(rover.forward(&around), Ok(Coordinate { x: 9, y: 8 }));
    assert_eq!(rover.direction, Directions::N);
    // backing over the edge turns the rover about as well
    let mut backing = rover_facing(Directions::N);
    assert_eq!(backing.backward(&around), Ok(Coordinate { x: 9, y: 8 }));
    assert_eq!(backing.direction, Directions::S);
}

#[test]
fn each_edge_turns_the_rover_once() {
    let mut around = open_ground();
    around.x_plus = Prospect::Open {
        landing: Coordinate { x: 9, y: 8 },
        crossed_north: true,
        crossed_south: true,
    };
    let mut rover = rover_facing(Directions::E);
    assert_eq!(rover.forward(&around), Ok(Coordinate { x: 9, y: 8 }));
    assert_eq!(rover.direction, Directions::E);
}

#[test]
fn execute_carries_out_each_command() {
    let around = open_ground();
    let mut rover = rover_facing(Directions::N);
    assert_eq!(rover.execute(Command::Forward, &around), Ok(Coordinate { x: 1, y: 1 }));
    assert_eq!(rover.execute(Command::Backward, &around), Ok(Coordinate { x: 2, y: 2 }));
    assert_eq!(rover.execute(Command::Left, &around), Ok(Coordinate { x: 2, y: 2 }));
    assert_eq!(rover.direction, Directions::W);
    assert_eq!(rover.execute(Command::Right, &around), Ok(Coordinate { x: 2, y: 2 }));
    assert_eq!(rover.direction, Directions::N);
    assert_eq!(
        rover.execute(Command::Forward, &walled_in()),
        Err("Obstacle detected, aborting!".to_owned())
    );
}

#[test]
fn the_state_is_written_on_two_lines() {
    let rover = rover_facing(Directions::W);
    assert_eq!(rover.to_string("12.5", "-0.25"), "position: 12.5 -0.25\ndirection: W");
    assert_eq!(MarsRover::new().to_string("0", "0"), "position: 0 0\ndirection: N");
}
