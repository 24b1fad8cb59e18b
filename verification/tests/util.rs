use tetris::util::{Event, Keycode, Orientation, Pos2d, RotDirection, UPos2d};

const ORIENTATIONS: [Orientation; 4] =
    [Orientation::North, Orientation::East, Orientation::South, Orientation::West];

#[test]
fn clockwise_turns_go_north_east_south_west() {
    assert_eq!(Orientation::North.rotate(RotDirection::Clockwise), Orientation::East);
    assert_eq!(Orientation::East.rotate(RotDirection::Clockwise), Orientation::South);
    assert_eq!(Orientation::South.rotate(RotDirection::Clockwise), Orientation::West);
    assert_eq!(Orientation::West.rotate(RotDirection::Clockwise), Orientation::North);
}

#[test]
fn counter_clockwise_turns_go_the_other_way() {
    assert_eq!(Orientation::North.rotate(RotDirection::CounterClockwise), Orientation::West);
    assert_eq!(Orientation::East.rotate(RotDirection::CounterClockwise), Orientation::North);
    assert_eq!(Orientation::South.rotate(RotDirection::CounterClockwise), Orientation::East);
    assert_eq!(Orientation::West.rotate(RotDirection::CounterClockwise), Orientation::South);
}

#[test]
fn a_turn_and_the_opposite_turn_cancel() {
    for orientation in ORIENTATIONS {
        let there = orientation.rotate(RotDirection::Clockwise);
        assert_ne!(there, orientation);
        assert_eq!(there.rotate(RotDirection::CounterClockwise), orientation);
        let there = orientation.rotate(RotDirection::CounterClockwise);
        assert_ne!(there, orientation);
        assert_eq!(there.rotate(RotDirection::Clockwise), orientation);
    }
}

#[test]
fn four_turns_come_back() {
    for orientation in ORIENTATIONS {
        for direction in [RotDirection::Clockwise, RotDirection::CounterClockwise] {
            let mut turned = orientation;
            for _ in 0..4 {
                turned = turned.rotate(direction);
            }
            assert_eq!(turned, orientation);
        }
    }
}

#[test]
fn positions_and_events_compare_by_value() {
    assert_eq!(Pos2d { x: -1, y: 2 }, Pos2d { x: -1, y: 2 });
    assert_ne!(Pos2d { x: -1, y: 2 }, Pos2d { x: 2, y: -1 });
    assert_eq!(UPos2d { x: 3, y: 0 }, UPos2d { x: 3, y: 0 });
    assert_ne!(Event::KeyDown(Keycode::A), Event::KeyUp(Keycode::A));
    assert_ne!(Event::KeyDown(Keycode::A), Event::KeyDown(Keycode::D));
    assert_eq!(Event::Quit, Event::Quit);
}
