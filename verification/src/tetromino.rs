//! The seven pieces: their colours, the cells each orientation occupies
//! inside a four-by-four box, and the offsets tried when a piece turns.

use crate::util::{Orientation, Pos2d, RotDirection, UPos2d};
use vstd::prelude::*;

verus! {

/// The seven four-cell pieces.
#[derive(Clone, Copy, PartialEq, Eq, Debug, Structural)]
pub enum Shape {
    O,
    I,
    L,
    J,
    S,
    Z,
    T,
}

/// The colour of a settled cell or of a piece; each shape has its own.
#[derive(Clone, Copy, PartialEq, Eq, Debug, Structural)]
pub enum Color {
    Teal,
    Blue,
    Orange,
    Yellow,
    Green,
    Purple,
    Red,
}

/// A piece: a shape in one of its four orientations, with its colour.
#[derive(Clone, Copy, PartialEq, Eq, Debug, Structural)]
pub struct Tetromino {
    pub shape: Shape,
    pub orientation: Orientation,
    pub color: Color,
}

/// The colour that belongs to `shape`.
pub open spec fn shape_color(shape: Shape) -> Color {
    match shape {
        Shape::I => Color::Teal,
        Shape::J => Color::Blue,
        Shape::L => Color::Orange,
        Shape::O => Color::Yellow,
        Shape::S => Color::Green,
        Shape::T => Color::Purple,
        Shape::Z => Color::Red,
    }
}

/// Four box offsets in the order given, each as `x, y`.
pub open spec fn four_tiles(
    x0: usize,
    y0: usize,
    x1: usize,
    y1: usize,
    x2: usize,
    y2: usize,
    x3: usize,
    y3: usize,
) -> Seq<UPos2d> {
    seq![
        UPos2d { x: x0, y: y0 },
        UPos2d { x: x1, y: y1 },
        UPos2d { x: x2, y: y2 },
        UPos2d { x: x3, y: y3 },
    ]
}

/// The layout table: the four cells that `shape` occupies inside its box
/// when it faces `orientation`, in the table's order. The O piece has one
/// layout for all four orientations.
pub open spec fn tile_offsets(shape: Shape, orientation: Orientation) -> Seq<UPos2d> {
    match (shape, orientation) {
        (Shape::O, _) => four_tiles(0, 1, 0, 2, 1, 1, 1, 2),
        (Shape::I, Orientation::West) => four_tiles(1, 0, 1, 1, 1, 2, 1, 3),
        (Shape::I, Orientation::South) => four_tiles(0, 2, 1, 2, 2, 2, 3, 2),
        (Shape::I, Orientation::East) => four_tiles(2, 0, 2, 1, 2, 2, 2, 3),
        (Shape::I, Orientation::North) => four_tiles(0, 1, 1, 1, 2, 1, 3, 1),
        (Shape::J, Orientation::West) => four_tiles(1, 0, 1, 1, 1, 2, 0, 2),
        (Shape::J, Orientation::South) => four_tiles(0, 1, 1, 1, 2, 1, 2, 2),
        (Shape::J, Orientation::East) => four_tiles(1, 0, 1, 1, 1, 2, 2, 0),
        (Shape::J, Orientation::North) => four_tiles(0, 1, 1, 1, 2, 1, 0, 0),
        (Shape::L, Orientation::West) => four_tiles(1, 0, 1, 1, 1, 2, 0, 0),
        (Shape::L, Orientation::South) => four_tiles(0, 1, 1, 1, 2, 1, 0, 2),
        (Shape::L, Orientation::East) => four_tiles(1, 0, 1, 1, 1, 2, 2, 2),
        (Shape::L, Orientation::North) => four_tiles(0, 1, 1, 1, 2, 1, 2, 0),
        (Shape::Z, Orientation::West) => four_tiles(1, 0, 1, 1, 0, 1, 0, 2),
        (Shape::Z, Orientation::South) => four_tiles(0, 1, 1, 1, 1, 2, 2, 2),
        (Shape::Z, Orientation::East) => four_tiles(2, 0, 2, 1, 1, 1, 1, 2),
        (Shape::Z, Orientation::North) => four_tiles(0, 0, 1, 0, 1, 1, 2, 1),
        (Shape::S, Orientation::West) => four_tiles(0, 0, 0, 1, 1, 1, 1, 2),
        (Shape::S, Orientation::South) => four_tiles(0, 2, 1, 2, 1, 1, 2, 1),
        (Shape::S, Orientation::East) => four_tiles(1, 0, 1, 1, 2, 1, 2, 2),
        (Shape::S, Orientation::North) => four_tiles(0, 1, 1, 1, 1, 0, 2, 0),
        (Shape::T, Orientation::West) => four_tiles(1, 0, 1, 1, 1, 2, 0, 1),
        (Shape::T, Orientation::South) => four_tiles(0, 1, 1, 1, 2, 1, 1, 2),
        (Shape::T, Orientation::East) => four_tiles(1, 0, 1, 1, 1, 2, 2, 1),
        (Shape::T, Orientation::North) => four_tiles(0, 1, 1, 1, 2, 1, 1, 0),
    }
}

/// Four offsets that lie inside the four-by-four box and differ from one
/// another.
pub open spec fn distinct_in_box(tiles: Seq<UPos2d>) -> bool {
    &&& tiles.len() == 4
    &&& forall|i: int| 0 <= i < 4 ==> (#[trigger] tiles[i]).x <= 3 && tiles[i].y <= 3
    &&& forall|i: int, j: int| 0 <= i < j < 4 ==> #[trigger] tiles[i] != #[trigger] tiles[j]
}

/// Every entry of the layout table holds four different cells of the box.
pub proof fn lemma_tile_offsets_distinct_in_box(shape: Shape, orientation: Orientation)
    ensures
        distinct_in_box(tile_offsets(shape, orientation)),
{
}

/// Whether the layout of `shape` facing `orientation` covers box cell
/// `(x, y)`.
pub open spec fn covers(shape: Shape, orientation: Orientation, x: int, y: int) -> bool {
    exists|i: int|
        0 <= i < 4 && (#[trigger] tile_offsets(shape, orientation)[i]).x == x && tile_offsets(
            shape,
            orientation,
        )[i].y == y
}

/// The side of the square about which a shape turns: four cells for the
/// I piece, three for J, L, S, T and Z. The O piece does not move when it
/// turns, so it has none.
pub open spec fn turning_box(shape: Shape) -> int {
    match shape {
        Shape::I => 4,
        _ => 3,
    }
}

/// The layouts of one shape are quarter turns of one another: a cell
/// `(x, y)` is covered before a clockwise turn exactly when the cell
/// `(n - 1 - y, x)` is covered after it, `n` being the side of the shape's
/// turning box. The O piece covers the same cells in every orientation.
pub proof fn lemma_layouts_are_quarter_turns(
    shape: Shape,
    orientation: Orientation,
    x: int,
    y: int,
)
    ensures
        shape != Shape::O ==> (covers(shape, orientation, x, y) <==> covers(
            shape,
            orientation.turned(RotDirection::Clockwise),
            turning_box(shape) - 1 - y,
            x,
        )),
        shape == Shape::O ==> (covers(shape, orientation, x, y) <==> covers(
            shape,
            orientation.turned(RotDirection::Clockwise),
            x,
            y,
        )),
{
    // Naming the four tiles of both layouts gives the solver its witnesses.
    let before = tile_offsets(shape, orientation);
    let after = tile_offsets(shape, orientation.turned(RotDirection::Clockwise));
    assert(before[0].x <= 3 && before[1].x <= 3 && before[2].x <= 3 && before[3].x <= 3);
    assert(after[0].x <= 3 && after[1].x <= 3 && after[2].x <= 3 && after[3].x <= 3);
}

/// Five displacements in the order given, each as `x, y`.
pub open spec fn five_kicks(
    x0: int,
    y0: int,
    x1: int,
    y1: int,
    x2: int,
    y2: int,
    x3: int,
    y3: int,
    x4: int,
    y4: int,
) -> Seq<Pos2d> {
    seq![
        Pos2d { x: x0 as isize, y: y0 as isize },
        Pos2d { x: x1 as isize, y: y1 as isize },
        Pos2d { x: x2 as isize, y: y2 as isize },
        Pos2d { x: x3 as isize, y: y3 as isize },
        Pos2d { x: x4 as isize, y: y4 as isize },
    ]
}

/// The kick table: the five displacements tried, in order, when `shape`
/// turns in `direction` away from `orientation`. J, L, S, T and Z share one
/// family of entries, the I piece has its own, and the O piece is never
/// displaced.
pub open spec fn kick_offsets(
    shape: Shape,
    orientation: Orientation,
    direction: RotDirection,
) -> Seq<Pos2d> {
    match shape {
        Shape::O => five_kicks(0, 0, 0, 0, 0, 0, 0, 0, 0, 0),
        Shape::I => match direction {
            RotDirection::Clockwise => match orientation {
                Orientation::North => five_kicks(0, 0, -2, 0, 1, 0, -2, 1, 1, -2),
                Orientation::East => five_kicks(0, 0, -1, 0, 2, 0, -1, -2, 2, 1),
                Orientation::South => five_kicks(0, 0, 2, 0, -1, 0, 2, -1, -1, 2),
                Orientation::West => five_kicks(0, 0, 1, 0, -2, 0, 1, 2, -1, 1),
            },
            RotDirection::CounterClockwise => match orientation {
                Orientation::North => five_kicks(0, 0, -1, 0, 2, 0, -1, -2, 2, 1),
                Orientation::East => five_kicks(0, 0, 2, 0, -1, 0, 2, -1, -1, 2),
                Orientation::South => five_kicks(0, 0, 1, 0, -2, 0, 1, 2, -2, 1),
                Orientation::West => five_kicks(0, 0, -2, 0, 1, 0, -2, 1, 1, -2),
            },
        },
        _ => match direction {
            RotDirection::Clockwise => match orientation {
                Orientation::North => five_kicks(0, 0, -1, 0, -1, -1, 0, 2, -1, 2),
                Orientation::East => five_kicks(0, 0, 1, 0, 1, 1, 0, -2, 1, -2),
                Orientation::South => five_kicks(0, 0, 1, 0, 1, -1, 0, 2, 1, 2),
                Orientation::West => five_kicks(0, 0, -1, 0, -1, 1, 0, -2, -1, -2),
            },
            RotDirection::CounterClockwise => match orientation {
                Orientation::North => five_kicks(0, 0, 1, 0, 1, -1, 0, 2, 1, 2),
                Orientation::East => five_kicks(0, 0, 1, 0, 1, 1, 0, -2, 1, -2),
                Orientation::South => five_kicks(0, 0, -1, 0, -1, -1, 0, 2, -1, 2),
                Orientation::West => five_kicks(0, 0, -1, 0, -1, 1, 0, -2, -1, -2),
            },
        },
    }
}

/// Every entry of the kick table holds five displacements of at most two
/// cells in each direction, and the first leaves the piece where it is.
pub proof fn lemma_kick_offsets_shape(
    shape: Shape,
    orientation: Orientation,
    direction: RotDirection,
)
    ensures
        kick_offsets(shape, orientation, direction).len() == 5,
        kick_offsets(shape, orientation, direction)[0] == (Pos2d { x: 0, y: 0 }),
        forall|k: int|
            0 <= k < 5 ==> -2 <= (#[trigger] kick_offsets(shape, orientation, direction)[k]).x <= 2
                && -2 <= kick_offsets(shape, orientation, direction)[k].y <= 2,
{
}

/// The O piece is never displaced when it turns.
pub proof fn lemma_o_piece_is_never_kicked(orientation: Orientation, direction: RotDirection)
    ensures
        forall|k: int|
            0 <= k < 5 ==> #[trigger] kick_offsets(Shape::O, orientation, direction)[k] == (Pos2d {
                x: 0,
                y: 0,
            }),
{
}

impl Tetromino {
    /// The same piece after one quarter turn in `direction`.
    pub open spec fn turned(self, direction: RotDirection) -> Tetromino {
        Tetromino {
            shape: self.shape,
            orientation: self.orientation.turned(direction),
            color: self.color,
        }
    }

    /// The cells that the piece occupies inside its box.
    pub open spec fn tiles(self) -> Seq<UPos2d> {
        tile_offsets(self.shape, self.orientation)
    }

    /// A piece of the given shape and orientation, in the shape's colour.
    pub fn new(shape: Shape, orientation: Orientation) -> (piece: Self)
        ensures
            piece == (Tetromino { shape, orientation, color: shape_color(shape) }),
    {
        Self { shape, orientation, color: get_shape_color(shape) }
    }

    /// Turns the piece by one quarter turn; shape and colour stay.
    pub fn rotate(&mut self, direction: RotDirection)
        ensures
            *final(self) == old(self).turned(direction),
    {
        self.orientation = self.orientation.rotate(direction);
    }

    /// The four cells that the piece occupies inside its box.
    pub fn get_tiles(&self) -> (tiles: [UPos2d; 4])
        ensures
            tiles@ == self.tiles(),
            distinct_in_box(tiles@),
    {
        get_tiles(self.shape, self.orientation)
    }
}

/// Looks up the layout table: the four different box cells that `shape`
/// occupies when it faces `orientation`.
pub fn get_tiles(shape: Shape, orientation: Orientation) -> (tiles: [UPos2d; 4])
    ensures
        tiles@ == tile_offsets(shape, orientation),
        distinct_in_box(tiles@),
{
    match (shape, orientation) {
        (Shape::O, _) => [
            UPos2d { x: 0, y: 1 },
            UPos2d { x: 0, y: 2 },
            UPos2d { x: 1, y: 1 },
            UPos2d { x: 1, y: 2 },
        ],
        (Shape::I, Orientation::West) => [
            UPos2d { x: 1, y: 0 },
            UPos2d { x: 1, y: 1 },
            UPos2d { x: 1, y: 2 },
            UPos2d { x: 1, y: 3 },
        ],
        (Shape::I, Orientation::South) => [
            UPos2d { x: 0, y: 2 },
            UPos2d { x: 1, y: 2 },
            UPos2d { x: 2, y: 2 },
            UPos2d { x: 3, y: 2 },
        ],
        (Shape::I, Orientation::East) => [
            UPos2d { x: 2, y: 0 },
            UPos2d { x: 2, y: 1 },
            UPos2d { x: 2, y: 2 },
            UPos2d { x: 2, y: 3 },
        ],
        (Shape::I, Orientation::North) => [
            UPos2d { x: 0, y: 1 },
            UPos2d { x: 1, y: 1 },
            UPos2d { x: 2, y: 1 },
            UPos2d { x: 3, y: 1 },
        ],
        (Shape::J, Orientation::West) => [
            UPos2d { x: 1, y: 0 },
            UPos2d { x: 1, y: 1 },
            UPos2d { x: 1, y: 2 },
            UPos2d { x: 0, y: 2 },
        ],
        (Shape::J, Orientation::South) => [
            UPos2d { x: 0, y: 1 },
            UPos2d { x: 1, y: 1 },
            UPos2d { x: 2, y: 1 },
            UPos2d { x: 2, y: 2 },
        ],
        (Shape::J, Orientation::East) => [
            UPos2d { x: 1, y: 0 },
            UPos2d { x: 1, y: 1 },
            UPos2d { x: 1, y: 2 },
            UPos2d { x: 2, y: 0 },
        ],
        (Shape::J, Orientation::North) => [
            UPos2d { x: 0, y: 1 },
            UPos2d { x: 1, y: 1 },
            UPos2d { x: 2, y: 1 },
            UPos2d { x: 0, y: 0 },
        ],
        (Shape::L, Orientation::West) => [
            UPos2d { x: 1, y: 0 },
            UPos2d { x: 1, y: 1 },
            UPos2d { x: 1, y: 2 },
            UPos2d { x: 0, y: 0 },
        ],
        (Shape::L, Orientation::South) => [
            UPos2d { x: 0, y: 1 },
            UPos2d { x: 1, y: 1 },
            UPos2d { x: 2, y: 1 },
            UPos2d { x: 0, y: 2 },
        ],
        (Shape::L, Orientation::East) => [
            UPos2d { x: 1, y: 0 },
            UPos2d { x: 1, y: 1 },
            UPos2d { x: 1, y: 2 },
            UPos2d { x: 2, y: 2 },
        ],
        (Shape::L, Orientation::North) => [
            UPos2d { x: 0, y: 1 },
            UPos2d { x: 1, y: 1 },
            UPos2d { x: 2, y: 1 },
            UPos2d { x: 2, y: 0 },
        ],
        (Shape::Z, Orientation::West) => [
            UPos2d { x: 1, y: 0 },
            UPos2d { x: 1, y: 1 },
            UPos2d { x: 0, y: 1 },
            UPos2d { x: 0, y: 2 },
        ],
        (Shape::Z, Orientation::South) => [
            UPos2d { x: 0, y: 1 },
            UPos2d { x: 1, y: 1 },
            UPos2d { x: 1, y: 2 },
            UPos2d { x: 2, y: 2 },
        ],
        (Shape::Z, Orientation::East) => [
            UPos2d { x: 2, y: 0 },
            UPos2d { x: 2, y: 1 },
            UPos2d { x: 1, y: 1 },
            UPos2d { x: 1, y: 2 },
        ],
        (Shape::Z, Orientation::North) => [
            UPos2d { x: 0, y: 0 },
            UPos2d { x: 1, y: 0 },
            UPos2d { x: 1, y: 1 },
            UPos2d { x: 2, y: 1 },
        ],
        (Shape::S, Orientation::West) => [
            UPos2d { x: 0, y: 0 },
            UPos2d { x: 0, y: 1 },
            UPos2d { x: 1, y: 1 },
            UPos2d { x: 1, y: 2 },
        ],
        (Shape::S, Orientation::South) => [
            UPos2d { x: 0, y: 2 },
            UPos2d { x: 1, y: 2 },
            UPos2d { x: 1, y: 1 },
            UPos2d { x: 2, y: 1 },
        ],
        (Shape::S, Orientation::East) => [
            UPos2d { x: 1, y: 0 },
            UPos2d { x: 1, y: 1 },
            UPos2d { x: 2, y: 1 },
            UPos2d { x: 2, y: 2 },
        ],
        (Shape::S, Orientation::North) => [
            UPos2d { x: 0, y: 1 },
            UPos2d { x: 1, y: 1 },
            UPos2d { x: 1, y: 0 },
            UPos2d { x: 2, y: 0 },
        ],
        (Shape::T, Orientation::West) => [
            UPos2d { x: 1, y: 0 },
            UPos2d { x: 1, y: 1 },
            UPos2d { x: 1, y: 2 },
            UPos2d { x: 0, y: 1 },
        ],
        (Shape::T, Orientation::South) => [
            UPos2d { x: 0, y: 1 },
            UPos2d { x: 1, y: 1 },
            UPos2d { x: 2, y: 1 },
            UPos2d { x: 1, y: 2 },
        ],
        (Shape::T, Orientation::East) => [
            UPos2d { x: 1, y: 0 },
            UPos2d { x: 1, y: 1 },
            UPos2d { x: 1, y: 2 },
            UPos2d { x: 2, y: 1 },
        ],
        (Shape::T, Orientation::North) => [
            UPos2d { x: 0, y: 1 },
            UPos2d { x: 1, y: 1 },
            UPos2d { x: 2, y: 1 },
            UPos2d { x: 1, y: 0 },
        ],
    }
}

/// The colour that belongs to `shape`.
pub fn get_shape_color(shape: Shape) -> (color: Color)
    ensures
        color == shape_color(shape),
{
    match shape {
        Shape::I => Color::Teal,
        Shape::J => Color::Blue,
        Shape::L => Color::Orange,
        Shape::O => Color::Yellow,
        Shape::S => Color::Green,
        Shape::T => Color::Purple,
        Shape::Z => Color::Red,
    }
}

/// Looks up the kick table: the five displacements to try, in order, when
/// `shape` turns in `direction` away from `orientation`.
pub fn get_shape_offset_tests(
    shape: Shape,
    orientation: Orientation,
    direction: RotDirection,
) -> (offsets: [Pos2d; 5])
    ensures
        offsets@ == kick_offsets(shape, orientation, direction),
{
    match direction {
        RotDirection::Clockwise => {
            match shape {
                Shape::J | Shape::L | Shape::S | Shape::T | Shape::Z => {
                    match orientation {
                        Orientation::North => {
                            [
                                Pos2d { x: 0, y: 0 },
                                Pos2d { x: -1, y: 0 },
                                Pos2d { x: -1, y: -1 },
                                Pos2d { x: 0, y: 2 },
                                Pos2d { x: -1, y: 2 },
                            ]
                        },
                        Orientation::East => {
                            [
                                Pos2d { x: 0, y: 0 },
                                Pos2d { x: 1, y: 0 },
                                Pos2d { x: 1, y: 1 },
                                Pos2d { x: 0, y: -2 },
                                Pos2d { x: 1, y: -2 },
                            ]
                        },
                        Orientation::South => {
                            [
                                Pos2d { x: 0, y: 0 },
                                Pos2d { x: 1, y: 0 },
                                Pos2d { x: 1, y: -1 },
                                Pos2d { x: 0, y: 2 },
                                Pos2d { x: 1, y: 2 },
                            ]
                        },
                        Orientation::West => {
                            [
                                Pos2d { x: 0, y: 0 },
                                Pos2d { x: -1, y: 0 },
                                Pos2d { x: -1, y: 1 },
                                Pos2d { x: 0, y: -2 },
                                Pos2d { x: -1, y: -2 },
                            ]
                        },
                    }
                },
                Shape::I => {
                    match orientation {
                        Orientation::North => {
                            [
                                Pos2d { x: 0, y: 0 },
                                Pos2d { x: -2, y: 0 },
                                Pos2d { x: 1, y: 0 },
                                Pos2d { x: -2, y: 1 },
                                Pos2d { x: 1, y: -2 },
                            ]
                        },
                        Orientation::East => {
                            [
                                Pos2d { x: 0, y: 0 },
                                Pos2d { x: -1, y: 0 },
                                Pos2d { x: 2, y: 0 },
                                Pos2d { x: -1, y: -2 },
                                Pos2d { x: 2, y: 1 },
                            ]
                        },
                        Orientation::South => {
                            [
                                Pos2d { x: 0, y: 0 },
                                Pos2d { x: 2, y: 0 },
                                Pos2d { x: -1, y: 0 },
                                Pos2d { x: 2, y: -1 },
                                Pos2d { x: -1, y: 2 },
                            ]
                        },
                        Orientation::West => {
                            [
                                Pos2d { x: 0, y: 0 },
                                Pos2d { x: 1, y: 0 },
                                Pos2d { x: -2, y: 0 },
                                Pos2d { x: 1, y: 2 },
                                Pos2d { x: -1, y: 1 },
                            ]
                        },
                    }
                },
                Shape::O => { [Pos2d { x: 0, y: 0 }; 5] },
            }
        },
        RotDirection::CounterClockwise => {
            match shape {
                Shape::J | Shape::L | Shape::S | Shape::T | Shape::Z => {
                    match orientation {
                        Orientation::North => {
                            [
                                Pos2d { x: 0, y: 0 },
                                Pos2d { x: 1, y: 0 },
                                Pos2d { x: 1, y: -1 },
                                Pos2d { x: 0, y: 2 },
                                Pos2d { x: 1, y: 2 },
                            ]
                        },
                        Orientation::East => {
                            [
                                Pos2d { x: 0, y: 0 },
                                Pos2d { x: 1, y: 0 },
                                Pos2d { x: 1, y: 1 },
                                Pos2d { x: 0, y: -2 },
                                Pos2d { x: 1, y: -2 },
                            ]
                        },
                        Orientation::South => {
                            [
                                Pos2d { x: 0, y: 0 },
                                Pos2d { x: -1, y: 0 },
                                Pos2d { x: -1, y: -1 },
                                Pos2d { x: 0, y: 2 },
                                Pos2d { x: -1, y: 2 },
                            ]
                        },
                        Orientation::West => {
                            [
                                Pos2d { x: 0, y: 0 },
                                Pos2d { x: -1, y: 0 },
                                Pos2d { x: -1, y: 1 },
                                Pos2d { x: 0, y: -2 },
                                Pos2d { x: -1, y: -2 },
                            ]
                        },
                    }
                },
                Shape::I => {
                    match orientation {
                        Orientation::North => {
                            [
                                Pos2d { x: 0, y: 0 },
                                Pos2d { x: -1, y: 0 },
                                Pos2d { x: 2, y: 0 },
                                Pos2d { x: -1, y: -2 },
                                Pos2d { x: 2, y: 1 },
                            ]
                        },
                        Orientation::East => {
                            [
                                Pos2d { x: 0, y: 0 },
                                Pos2d { x: 2, y: 0 },
                                Pos2d { x: -1, y: 0 },
                                Pos2d { x: 2, y: -1 },
                                Pos2d { x: -1, y: 2 },
                            ]
                        },
                        Orientation::South => {
                            [
                                Pos2d { x: 0, y: 0 },
                                Pos2d { x: 1, y: 0 },
                                Pos2d { x: -2, y: 0 },
                                Pos2d { x: 1, y: 2 },
                                Pos2d { x: -2, y: 1 },
                            ]
                        },
                        Orientation::West => {
                            [
                                Pos2d { x: 0, y: 0 },
                                Pos2d { x: -2, y: 0 },
                                Pos2d { x: 1, y: 0 },
                                Pos2d { x: -2, y: 1 },
                                Pos2d { x: 1, y: -2 },
                            ]
                        },
                    }
                },
                Shape::O => { [Pos2d { x: 0, y: 0 }; 5] },
            }
        },
    }
}

} // verus!
