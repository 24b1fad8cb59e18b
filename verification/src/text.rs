//! The playfield and the pieces as text, two characters to a cell.

use crate::board::Board;
use crate::gamestate::{grid_rows, stamp, GameState};
use crate::grid::{Row, Rows};
use crate::tetromino::{covers, Color, Tetromino};
use vstd::prelude::*;
use vstd::string::StringExecFns;

verus! {

/// The two characters that stand for a cell of the playfield: a dot and a
/// blank for an empty cell, and a pair of its own for each colour.
pub open spec fn cell_glyph(cell: Option<Color>) -> Seq<char> {
    match cell {
        None => ". "@,
        Some(Color::Teal) => "[]"@,
        Some(Color::Blue) => "██"@,
        Some(Color::Orange) => "▒▒"@,
        Some(Color::Yellow) => "()"@,
        Some(Color::Green) => "{}"@,
        Some(Color::Purple) => "▓▓"@,
        Some(Color::Red) => "░░"@,
    }
}

/// The two characters that stand for a cell of a piece's box: brackets
/// where the piece covers the cell, a dot and a blank where it does not.
pub open spec fn box_glyph(covered: bool) -> Seq<char> {
    if covered {
        "[]"@
    } else {
        ". "@
    }
}

/// The glyphs of a row's cells, left to right.
pub open spec fn row_text(row: Row) -> Seq<char>
    decreases row.len(),
{
    if row.len() == 0 {
        Seq::empty()
    } else {
        row_text(row.drop_last()) + cell_glyph(row.last())
    }
}

/// The glyphs of the first `width` cells of row `y` of a piece's box.
pub open spec fn box_row_text(piece: Tetromino, y: int, width: nat) -> Seq<char>
    decreases width,
{
    if width == 0 {
        Seq::empty()
    } else {
        box_row_text(piece, y, (width - 1) as nat) + box_glyph(
            covers(piece.shape, piece.orientation, width - 1, y),
        )
    }
}

/// The lines with a line feed between each two of them.
pub open spec fn joined(lines: Seq<Seq<char>>) -> Seq<char>
    decreases lines.len(),
{
    if lines.len() == 0 {
        Seq::empty()
    } else if lines.len() == 1 {
        lines[0]
    } else {
        joined(lines.drop_last()) + "\n"@ + lines.last()
    }
}

/// The text of each row.
pub open spec fn row_lines(rows: Rows) -> Seq<Seq<char>> {
    Seq::new(rows.len(), |r: int| row_text(rows[r]))
}

/// The text of each of the four rows of a piece's box.
pub open spec fn box_lines(piece: Tetromino) -> Seq<Seq<char>> {
    Seq::new(4, |y: int| box_row_text(piece, y, 4))
}

/// A game as text: a heading, then the rows of the playfield from the top,
/// the falling piece drawn over the settled cells.
pub open spec fn game_text(board: Board) -> Seq<char> {
    "GameState:\n"@ + joined(row_lines(board.shown()))
}

/// A piece as text: a heading, then the four rows of its box.
pub open spec fn piece_text(piece: Tetromino) -> Seq<char> {
    "Tetromino:\n"@ + joined(box_lines(piece))
}

/// The lines up to line `count`, joined, and the line feed that separates
/// them from line `count`.
pub open spec fn joined_before(lines: Seq<Seq<char>>, count: int) -> Seq<char> {
    if count == 0 {
        Seq::empty()
    } else {
        joined(lines.take(count)) + "\n"@
    }
}

/// One more line joins the lines before it after a line feed.
pub proof fn lemma_joined_next(lines: Seq<Seq<char>>, count: int)
    requires
        0 <= count < lines.len(),
    ensures
        joined(lines.take(count + 1)) == joined_before(lines, count) + lines[count],
{
    let upto = lines.take(count + 1);
    assert(upto.drop_last() =~= lines.take(count));
    assert(upto.last() == lines[count]);
    if count == 0 {
        assert(Seq::<char>::empty() + lines[0] =~= lines[0]);
    }
}

/// The glyphs that stand for a cell.
pub fn glyph(cell: Option<Color>) -> (text: &'static str)
    ensures
        text@ == cell_glyph(cell),
{
    match cell {
        None => ". ",
        Some(color) => match color {
            Color::Teal => "[]",
            Color::Blue => "██",
            Color::Orange => "▒▒",
            Color::Yellow => "()",
            Color::Green => "{}",
            Color::Purple => "▓▓",
            Color::Red => "░░",
        },
    }
}

impl GameState {
    /// The settled cells with the falling piece drawn over them.
    pub fn composite(&self) -> (shown: [[Option<Color>; 10]; 20])
        requires
            self.well_formed(),
        ensures
            grid_rows(shown) == self@.shown(),
    {
        let mut shown = self.grid;
        if let Some((tetro, pos)) = self.current {
            stamp(&mut shown, tetro, pos);
        }
        shown
    }

    /// The game as text: a heading, then one line for each row of the
    /// playfield, the falling piece drawn over the settled cells.
    pub fn to_text(&self) -> (text: String)
        requires
            self.well_formed(),
        ensures
            text@ == game_text(self@),
    {
        let shown = self.composite();
        let ghost rows = grid_rows(shown);
        let ghost lines = row_lines(rows);
        let mut text = String::from_str("GameState:\n");
        let mut r: usize = 0;
        proof {
            assert(lines.take(0) =~= Seq::<Seq<char>>::empty());
            assert(text@ + Seq::<char>::empty() =~= text@);
        }
        while r < 20
            invariant
                0 <= r <= 20,
                rows == grid_rows(shown),
                lines == row_lines(rows),
                lines.len() == 20,
                text@ == "GameState:\n"@ + joined(lines.take(r as int)),
            decreases 20 - r,
        {
            if r > 0 {
                text.append("\n");
            }
            let ghost start = text@;
            assert(start =~= "GameState:\n"@ + joined_before(lines, r as int));
            let mut c: usize = 0;
            assert(rows[r as int].take(0) =~= Seq::<Option<Color>>::empty());
            assert(start + Seq::<char>::empty() =~= start);
            while c < 10
                invariant
                    0 <= c <= 10,
                    0 <= r < 20,
                    rows == grid_rows(shown),
                    text@ == start + row_text(rows[r as int].take(c as int)),
                decreases 10 - c,
            {
                let cell = shown[r][c];
                text.append(glyph(cell));
                proof {
                    let upto = rows[r as int].take(c + 1);
                    assert(upto.drop_last() =~= rows[r as int].take(c as int));
                    assert(upto.last() == cell);
                    assert(start + row_text(rows[r as int].take(c as int)) + cell_glyph(cell)
                        =~= start + row_text(upto));
                }
                c += 1;
            }
            proof {
                assert(rows[r as int].take(10) =~= rows[r as int]);
                assert(lines[r as int] == row_text(rows[r as int]));
                lemma_joined_next(lines, r as int);
                assert("GameState:\n"@ + joined_before(lines, r as int) + lines[r as int]
                    =~= "GameState:\n"@ + joined(lines.take(r + 1)));
            }
            r += 1;
        }
        proof {
            assert(lines.take(20) =~= lines);
        }
        text
    }
}

impl Tetromino {
    /// Which cells of its box the piece covers, row by row.
    pub fn mask(&self) -> (mask: [[bool; 4]; 4])
        ensures
            forall|x: int, y: int|
                0 <= x < 4 && 0 <= y < 4 ==> #[trigger] mask[y][x] == covers(
                    self.shape,
                    self.orientation,
                    x,
                    y,
                ),
    {
        let tiles = self.get_tiles();
        let mut mask = [[false; 4]; 4];
        let mut i: usize = 0;
        while i < 4
            invariant
                0 <= i <= 4,
                tiles@ == self.tiles(),
                crate::tetromino::distinct_in_box(tiles@),
                forall|x: int, y: int|
                    0 <= x < 4 && 0 <= y < 4 ==> #[trigger] mask[y][x] == (exists|k: int|
                        0 <= k < i && (#[trigger] tiles@[k]).x == x && tiles@[k].y == y),
            decreases 4 - i,
        {
            let tile = tiles[i];
            assert(tile == tiles@[i as int]);
            let ghost before = mask;
            mask[tile.y][tile.x] = true;
            proof {
                assert forall|x: int, y: int| 0 <= x < 4 && 0 <= y < 4 implies #[trigger] mask[y][x]
                    == (exists|k: int|
                    0 <= k < i + 1 && (#[trigger] tiles@[k]).x == x && tiles@[k].y == y) by {
                    if x == tile.x && y == tile.y {
                        assert(tiles@[i as int].x == x && tiles@[i as int].y == y);
                    } else {
                        assert(mask[y][x] == before[y][x]);
                        if exists|k: int|
                            0 <= k < i + 1 && (#[trigger] tiles@[k]).x == x && tiles@[k].y == y {
                            let k = choose|k: int|
                                0 <= k < i + 1 && (#[trigger] tiles@[k]).x == x && tiles@[k].y == y;
                            assert(k < i);
                        }
                    }
                }
            }
            i += 1;
        }
        mask
    }

    /// The piece as text: a heading, then one line for each row of its
    /// box.
    pub fn to_text(&self) -> (text: String)
        ensures
            text@ == piece_text(*self),
    {
        let mask = self.mask();
        let ghost lines = box_lines(*self);
        let mut text = String::from_str("Tetromino:\n");
        let mut y: usize = 0;
        proof {
            assert(lines.take(0) =~= Seq::<Seq<char>>::empty());
            assert(text@ + Seq::<char>::empty() =~= text@);
        }
        while y < 4
            invariant
                0 <= y <= 4,
                lines == box_lines(*self),
                forall|x: int, y: int|
                    0 <= x < 4 && 0 <= y < 4 ==> #[trigger] mask[y][x] == covers(
                        self.shape,
                        self.orientation,
                        x,
                        y,
                    ),
                text@ == "Tetromino:\n"@ + joined(lines.take(y as int)),
            decreases 4 - y,
        {
            if y > 0 {
                text.append("\n");
            }
            let ghost start = text@;
            assert(start =~= "Tetromino:\n"@ + joined_before(lines, y as int));
            assert(start + Seq::<char>::empty() =~= start);
            let mut x: usize = 0;
            while x < 4
                invariant
                    0 <= x <= 4,
                    0 <= y < 4,
                    forall|x: int, y: int|
                        0 <= x < 4 && 0 <= y < 4 ==> #[trigger] mask[y][x] == covers(
                            self.shape,
                            self.orientation,
                            x,
                            y,
                        ),
                    text@ == start + box_row_text(*self, y as int, x as nat),
                decreases 4 - x,
            {
                let covered = mask[y][x];
                if covered {
                    text.append("[]");
                } else {
                    text.append(". ");
                }
                proof {
                    assert(start + box_row_text(*self, y as int, x as nat) + box_glyph(covered)
                        =~= start + box_row_text(*self, y as int, (x + 1) as nat));
                }
                x += 1;
            }
            proof {
                assert(lines[y as int] == box_row_text(*self, y as int, 4));
                lemma_joined_next(lines, y as int);
                assert("Tetromino:\n"@ + joined_before(lines, y as int) + lines[y as int]
                    =~= "Tetromino:\n"@ + joined(lines.take(y + 1)));
            }
            y += 1;
        }
        proof {
            assert(lines.take(4) =~= lines);
        }
        text
    }
}

} // verus!
