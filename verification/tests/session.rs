use tetris::gamestate::{GameState, State};
use tetris::session::{
    contains, held_after, push, turn, Session, FRAMES_PER_MOVE, FRAMES_PER_SECOND, FRAMES_PER_STEP,
    MILLIS_PER_FRAME,
};
use tetris::tetromino::{Color, Shape, Tetromino};
use tetris::util::{Event, Keycode, Orientation, Pos2d};

fn session_with(shape: Shape, x: isize, y: isize) -> Session {
    let mut session = Session::new();
    session.game.current = Some((Tetromino::new(shape, Orientation::North), Pos2d { x, y }));
    session.game.next = vec![Shape::I, Shape::O];
    session
}

#[test]
fn frames_are_paced_at_thirty_a_second() {
    assert_eq!(FRAMES_PER_SECOND, 30);
    assert_eq!(MILLIS_PER_FRAME, 33);
    assert_eq!(FRAMES_PER_STEP, 6);
    assert_eq!(FRAMES_PER_MOVE, 3);
}

#[test]
fn a_new_session_starts_at_frame_zero() {
    let session = Session::new();
    assert_eq!(session.frame, 0);
    assert!(!session.left && !session.right && !session.down);
    assert!(session.running());
    assert_eq!(session.game.current, None);
    assert_eq!(session.game.grid, [[None; 10]; 20]);
}

#[test]
fn a_lost_game_is_not_running() {
    let mut session = Session::new();
    session.game.state = State::Lost;
    assert!(!session.running());
}

#[test]
fn gravity_ticks_every_sixth_frame() {
    let mut session = session_with(Shape::T, 3, 0);
    let mut row = 0;
    for frame in 0..20 {
        assert_eq!(session.frame, frame);
        session.begin_frame();
        if frame % 6 == 0 {
            row += 1;
        }
        assert_eq!(session.game.current.unwrap().1, Pos2d { x: 3, y: row });
        assert!(session.end_frame(&Vec::new()));
    }
    assert_eq!(row, 4);
    assert_eq!(session.frame, 20);
}

#[test]
fn quitting_ends_the_frame_without_a_change() {
    let mut session = session_with(Shape::T, 3, 5);
    let events = vec![
        Event::KeyDown(Keycode::A),
        Event::KeyDown(Keycode::Space),
        Event::Quit,
        Event::KeyDown(Keycode::S),
    ];
    assert!(!session.end_frame(&events));
    assert_eq!(session.frame, 0);
    assert!(!session.left && !session.right && !session.down);
    assert_eq!(
        session.game.current,
        Some((Tetromino::new(Shape::T, Orientation::North), Pos2d { x: 3, y: 5 }))
    );
}

#[test]
fn held_keys_move_the_piece_every_third_frame() {
    let mut session = session_with(Shape::O, 3, 5);
    assert!(session.end_frame(&vec![Event::KeyDown(Keycode::D)]));
    assert!(session.right);
    assert_eq!(session.game.current.unwrap().1, Pos2d { x: 4, y: 5 });
    assert!(session.end_frame(&Vec::new()));
    assert!(session.end_frame(&Vec::new()));
    assert_eq!(session.game.current.unwrap().1, Pos2d { x: 4, y: 5 });
    assert!(session.end_frame(&Vec::new()));
    assert_eq!(session.game.current.unwrap().1, Pos2d { x: 5, y: 5 });
    assert!(session.end_frame(&vec![Event::KeyUp(Keycode::D), Event::KeyDown(Keycode::A)]));
    assert!(!session.right);
    assert!(session.left);
    assert_eq!(session.game.current.unwrap().1, Pos2d { x: 5, y: 5 });
    assert!(session.end_frame(&vec![Event::KeyDown(Keycode::S)]));
    assert!(session.down);
    assert_eq!(session.game.current.unwrap().1, Pos2d { x: 5, y: 5 });
    assert_eq!(session.frame, 6);
    assert!(session.end_frame(&Vec::new()));
    assert_eq!(session.game.current.unwrap().1, Pos2d { x: 4, y: 6 });
    assert!(session.end_frame(&vec![Event::KeyUp(Keycode::A), Event::KeyUp(Keycode::S)]));
    assert!(!session.left && !session.right && !session.down);
    assert!(session.end_frame(&Vec::new()));
    assert!(session.end_frame(&Vec::new()));
    assert_eq!(session.game.current.unwrap().1, Pos2d { x: 4, y: 6 });
    assert_eq!(session.frame, 10);
}

#[test]
fn a_key_pressed_and_released_in_one_frame_is_not_held() {
    let mut session = session_with(Shape::O, 3, 5);
    assert!(session.end_frame(&vec![Event::KeyUp(Keycode::D), Event::KeyDown(Keycode::D)]));
    assert!(!session.right);
    assert_eq!(session.game.current.unwrap().1, Pos2d { x: 3, y: 5 });
    let pressed_and_released = vec![Event::KeyDown(Keycode::A), Event::KeyUp(Keycode::A)];
    assert!(!held_after(true, &pressed_and_released, Keycode::A));
    let pressed = vec![Event::KeyDown(Keycode::A), Event::KeyUp(Keycode::D)];
    assert!(held_after(false, &pressed, Keycode::A));
    assert!(held_after(true, &vec![Event::KeyDown(Keycode::D)], Keycode::A));
    assert!(!held_after(false, &vec![Event::KeyDown(Keycode::D)], Keycode::A));
}

#[test]
fn right_is_tried_before_left_and_left_before_down() {
    // With the wall to the right the piece ends one column to the left.
    let mut game = GameState::new();
    game.current = Some((Tetromino::new(Shape::O, Orientation::North), Pos2d { x: 8, y: 5 }));
    push(&mut game, true, true, true);
    assert_eq!(game.current.unwrap().1, Pos2d { x: 7, y: 6 });
    // In the open the two moves cancel.
    game.current = Some((Tetromino::new(Shape::O, Orientation::North), Pos2d { x: 4, y: 5 }));
    push(&mut game, true, true, false);
    assert_eq!(game.current.unwrap().1, Pos2d { x: 4, y: 5 });
    // A settled cell under the piece two columns to the left stops the
    // descent only once the piece has moved there.
    game.grid[8][3] = Some(Color::Red);
    push(&mut game, true, false, true);
    assert_eq!(game.current.unwrap().1, Pos2d { x: 3, y: 5 });
    push(&mut game, false, false, false);
    assert_eq!(game.current.unwrap().1, Pos2d { x: 3, y: 5 });
}

#[test]
fn space_turns_clockwise_and_shift_counter_clockwise() {
    let mut session = session_with(Shape::T, 3, 5);
    session.frame = 1;
    assert!(session.end_frame(&vec![Event::KeyDown(Keycode::Space)]));
    assert_eq!(session.game.current.unwrap().0.orientation, Orientation::East);
    assert!(session.end_frame(&vec![Event::KeyDown(Keycode::Shift)]));
    assert_eq!(session.game.current.unwrap().0.orientation, Orientation::North);
    assert!(session.end_frame(&vec![Event::KeyDown(Keycode::Shift)]));
    assert_eq!(session.game.current.unwrap().0.orientation, Orientation::West);
    let both = vec![Event::KeyDown(Keycode::Shift), Event::KeyDown(Keycode::Space)];
    assert!(session.end_frame(&both));
    assert_eq!(session.game.current.unwrap().0.orientation, Orientation::West);
    assert!(session.end_frame(&vec![Event::KeyUp(Keycode::W), Event::KeyDown(Keycode::W)]));
    assert_eq!(session.game.current.unwrap().0.orientation, Orientation::West);
    assert_eq!(session.game.current.unwrap().1, Pos2d { x: 3, y: 5 });
    let mut game = GameState::new();
    game.current = Some((Tetromino::new(Shape::J, Orientation::South), Pos2d { x: 3, y: 5 }));
    turn(&mut game, &vec![Event::KeyDown(Keycode::Space), Event::KeyDown(Keycode::Space)]);
    assert_eq!(game.current.unwrap().0.orientation, Orientation::West);
}

#[test]
fn contains_finds_an_event_among_others() {
    let events = vec![Event::KeyDown(Keycode::A), Event::KeyUp(Keycode::S)];
    assert!(contains(&events, Event::KeyDown(Keycode::A)));
    assert!(contains(&events, Event::KeyUp(Keycode::S)));
    assert!(!contains(&events, Event::KeyUp(Keycode::A)));
    assert!(!contains(&events, Event::KeyDown(Keycode::S)));
    assert!(!contains(&events, Event::Quit));
    assert!(!contains(&Vec::new(), Event::Quit));
}
