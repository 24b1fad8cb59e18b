use tetris::gamestate::GameState;
use tetris::tetromino::{Color, Shape, Tetromino};
use tetris::text::glyph;
use tetris::util::{Orientation, Pos2d};

#[test]
fn each_cell_has_its_glyph() {
    assert_eq!(glyph(None), ". ");
    assert_eq!(glyph(Some(Color::Teal)), "[]");
    assert_eq!(glyph(Some(Color::Blue)), "██");
    assert_eq!(glyph(Some(Color::Orange)), "▒▒");
    assert_eq!(glyph(Some(Color::Yellow)), "()");
    assert_eq!(glyph(Some(Color::Green)), "{}");
    assert_eq!(glyph(Some(Color::Purple)), "▓▓");
    assert_eq!(glyph(Some(Color::Red)), "░░");
}

#[test]
fn a_fresh_game_prints_twenty_empty_rows() {
    let mut expected = String::from("GameState:");
    for _ in 0..20 {
        expected.push_str("\n. . . . . . . . . . ");
    }
    assert_eq!(GameState::new().to_text(), expected);
}

#[test]
fn a_game_prints_settled_cells_and_the_falling_piece() {
    let mut game = GameState::new();
    game.grid[19] = [
        Some(Color::Teal),
        Some(Color::Blue),
        Some(Color::Orange),
        Some(Color::Yellow),
        Some(Color::Green),
        Some(Color::Purple),
        Some(Color::Red),
        None,
        None,
        Some(Color::Red),
    ];
    game.grid[18][9] = Some(Color::Blue);
    game.current = Some((Tetromino::new(Shape::T, Orientation::North), Pos2d { x: 3, y: 0 }));
    let mut expected = String::from("GameState:\n");
    expected.push_str(". . . . ▓▓. . . . . \n");
    expected.push_str(". . . ▓▓▓▓▓▓. . . . \n");
    for _ in 2..18 {
        expected.push_str(". . . . . . . . . . \n");
    }
    expected.push_str(". . . . . . . . . ██\n");
    expected.push_str("[]██▒▒(){}▓▓░░. . ░░");
    assert_eq!(game.to_text(), expected);
    assert_eq!(game.grid[0], [None; 10]);
}

#[test]
fn composite_draws_the_piece_over_the_settled_cells() {
    let mut game = GameState::new();
    game.grid[19][0] = Some(Color::Red);
    game.grid[6][4] = Some(Color::Red);
    game.current = Some((Tetromino::new(Shape::S, Orientation::North), Pos2d { x: 3, y: 5 }));
    // S facing North covers (0,1), (1,1), (1,0), (2,0) of its box.
    let mut expected = [[None; 10]; 20];
    expected[19][0] = Some(Color::Red);
    expected[6][3] = Some(Color::Green);
    expected[6][4] = Some(Color::Green);
    expected[5][4] = Some(Color::Green);
    expected[5][5] = Some(Color::Green);
    assert_eq!(game.composite(), expected);
    game.current = None;
    expected = [[None; 10]; 20];
    expected[19][0] = Some(Color::Red);
    expected[6][4] = Some(Color::Red);
    assert_eq!(game.composite(), expected);
}

#[test]
fn a_piece_prints_the_four_rows_of_its_box() {
    let t = Tetromino::new(Shape::T, Orientation::North);
    assert_eq!(t.to_text(), "Tetromino:\n. []. . \n[][][]. \n. . . . \n. . . . ");
    let i = Tetromino::new(Shape::I, Orientation::East);
    assert_eq!(i.to_text(), "Tetromino:\n. . []. \n. . []. \n. . []. \n. . []. ");
    let o = Tetromino::new(Shape::O, Orientation::West);
    assert_eq!(o.to_text(), "Tetromino:\n. . . . \n[][]. . \n[][]. . \n. . . . ");
}

#[test]
fn mask_marks_the_covered_cells() {
    let z = Tetromino::new(Shape::Z, Orientation::East);
    // Z facing East covers (2,0), (2,1), (1,1), (1,2).
    assert_eq!(
        z.mask(),
        [
            [false, false, true, false],
            [false, true, true, false],
            [false, true, false, false],
            [false, false, false, false]
        ]
    );
}
