//! The game: a playfield of settled cells, the falling piece, and the
//! operations that a driver calls on each tick and each input.

use crate::bag::{is_full_bag, shuffled_bag};
use crate::board::{
    first_fit, fits, lemma_spawn_on_board, stamped, stamped_among, Active, Board, SPAWN_X, SPAWN_Y,
};
use crate::grid::{
    empty_row, empty_rows, kept_rows, lemma_compacted_shape, lemma_kept_rows_prepend, row_full,
    Rows, HEIGHT, WIDTH,
};
use crate::tetromino::{get_shape_offset_tests, kick_offsets, Color, Shape, Tetromino};
use crate::util::{Orientation, Pos2d, RotDirection};
use vstd::prelude::*;

verus! {

/// Whether a game is still being played. No operation of the game changes
/// it: to end a game is the driver's decision.
#[derive(Clone, Copy, PartialEq, Eq, Debug, Structural)]
pub enum State {
    Running,
    Lost,
}

/// A game in progress.
pub struct GameState {
    /// The settled cells: twenty rows of ten, row 0 at the top.
    pub grid: [[Option<Color>; 10]; 20],
    /// The falling piece and the position of its box's top left corner.
    pub current: Option<(Tetromino, Pos2d)>,
    /// Whether the game is running.
    pub state: State,
    /// The shapes to come; the last one is spawned next.
    pub next: Vec<Shape>,
}

/// The rows of a grid as sequences.
pub open spec fn grid_rows(grid: [[Option<Color>; 10]; 20]) -> Rows {
    Seq::new(HEIGHT as nat, |row: int| grid[row]@)
}

/// A piece at a position, as the model sees it.
pub open spec fn placement(piece: Tetromino, pos: Pos2d) -> Active {
    Active { piece, x: pos.x as int, y: pos.y as int }
}

impl View for GameState {
    type V = Board;

    open spec fn view(&self) -> Board {
        Board {
            rows: grid_rows(self.grid),
            active: match self.current {
                Some((piece, pos)) => Some(placement(piece, pos)),
                None => None,
            },
            state: self.state,
            queue: self.next@,
        }
    }
}

impl GameState {
    /// The falling piece, if any, lies on the board. Every operation
    /// keeps this, and the operations that move, turn or lock a piece
    /// rely on it.
    pub open spec fn well_formed(&self) -> bool {
        self@.well_formed()
    }

    /// Whether the falling piece, if any, lies on the board.
    pub fn is_well_formed(&self) -> (well_formed: bool)
        ensures
            well_formed == self.well_formed(),
    {
        proof {
            lemma_grid_rows_shaped(self.grid);
        }
        match self.current {
            None => true,
            Some((tetro, pos)) => on_board(tetro, pos),
        }
    }

    /// A fresh game: an empty playfield, no piece, an empty queue.
    pub fn new() -> (game: Self)
        ensures
            game@ == Board::fresh(),
            game.well_formed(),
            game@.consistent(),
    {
        let game = Self {
            grid: [[None; 10]; 20],
            current: None,
            state: State::Running,
            next: Vec::new(),
        };
        proof {
            assert(game@.rows =~~= empty_rows(HEIGHT as nat));
            crate::board::lemma_fresh_is_consistent();
        }
        game
    }

    /// The fit test: whether all four cells of `tetro`, with its box at
    /// `pos`, lie on the board and on empty cells.
    pub fn fit_test(&self, tetro: Tetromino, pos: Pos2d) -> (fit: bool)
        ensures
            fit == fits(self@.rows, placement(tetro, pos)),
    {
        let tiles = tetro.get_tiles();
        let ghost active = placement(tetro, pos);
        let mut i: usize = 0;
        while i < 4
            invariant
                0 <= i <= 4,
                tiles@ == tetro.tiles(),
                crate::tetromino::distinct_in_box(tiles@),
                active == placement(tetro, pos),
                forall|j: int|
                    0 <= j < i ==> {
                        let (column, row) = #[trigger] active.cell(j);
                        &&& 0 <= column < WIDTH
                        &&& 0 <= row < HEIGHT
                        &&& self@.rows[row][column] is None
                    },
            decreases 4 - i,
        {
            let tile = tiles[i];
            assert(tile == tiles@[i as int]);
            assert(tile.x <= 3 && tile.y <= 3);
            let tx: isize = tile.x as isize;
            let ty: isize = tile.y as isize;
            assert(active.cell(i as int) == (pos.x + tx, pos.y + ty));
            if pos.x > 9 - tx {
                return false;
            }
            if pos.x < 0 - tx {
                return false;
            }
            if pos.y > 19 - ty {
                return false;
            }
            if pos.y < 0 - ty {
                return false;
            }
            let row: usize = (ty + pos.y) as usize;
            let column: usize = (tx + pos.x) as usize;
            if self.grid[row][column].is_some() {
                return false;
            }
            i += 1;
        }
        true
    }

    /// Moves the falling piece down by one row if it fits there. Fails,
    /// and changes nothing, if it does not fit; the piece is not locked.
    /// With no falling piece there is nothing to do, which succeeds.
    pub fn fall(&mut self) -> (moved: Result<(), ()>)
        requires
            old(self).well_formed(),
        ensures
            final(self)@ == old(self)@.moved(0, 1),
            moved is Err <==> old(self)@.landed(),
            final(self).well_formed(),
            old(self)@.consistent() ==> final(self)@.consistent(),
    {
        match self.current {
            None => Ok(()),
            Some((tetro, pos)) => {
                proof {
                    lemma_on_board_bounds(placement(tetro, pos));
                }
                let below = Pos2d { x: pos.x, y: pos.y + 1 };
                assert(placement(tetro, below) == placement(tetro, pos).shifted(0, 1));
                let test = self.fit_test(tetro, below);
                if test {
                    self.current = Some((tetro, below));
                    Ok(())
                } else {
                    Err(())
                }
            },
        }
    }

    /// Moves the falling piece one column to the right if it fits there;
    /// changes nothing if it does not.
    pub fn move_right(&mut self)
        requires
            old(self).well_formed(),
        ensures
            final(self)@ == old(self)@.moved(1, 0),
            final(self).well_formed(),
            old(self)@.consistent() ==> final(self)@.consistent(),
    {
        match self.current {
            None => (),
            Some((tetro, pos)) => {
                proof {
                    lemma_on_board_bounds(placement(tetro, pos));
                }
                let beside = Pos2d { x: pos.x + 1, y: pos.y };
                assert(placement(tetro, beside) == placement(tetro, pos).shifted(1, 0));
                if !self.fit_test(tetro, beside) {
                    return ;
                }
                self.current = Some((tetro, beside));
            },
        }
    }

    /// Moves the falling piece one column to the left if it fits there;
    /// changes nothing if it does not.
    pub fn move_left(&mut self)
        requires
            old(self).well_formed(),
        ensures
            final(self)@ == old(self)@.moved(-1, 0),
            final(self).well_formed(),
            old(self)@.consistent() ==> final(self)@.consistent(),
    {
        match self.current {
            None => (),
            Some((tetro, pos)) => {
                proof {
                    lemma_on_board_bounds(placement(tetro, pos));
                }
                let beside = Pos2d { x: pos.x - 1, y: pos.y };
                assert(placement(tetro, beside) == placement(tetro, pos).shifted(-1, 0));
                if !self.fit_test(tetro, beside) {
                    return ;
                }
                self.current = Some((tetro, beside));
            },
        }
    }

    /// Turns the falling piece by a quarter turn. The turned piece is
    /// tried at each of the five displacements of its kick table entry in
    /// order, and comes to stand at the first where it fits. If it fits at
    /// none, the piece keeps its orientation and its position.
    pub fn rotate(&mut self, direction: RotDirection)
        requires
            old(self).well_formed(),
        ensures
            final(self)@ == old(self)@.rotated(direction),
            final(self).well_formed(),
            old(self)@.consistent() ==> final(self)@.consistent(),
    {
        match self.current {
            None => (),
            Some((tetro, pos)) => {
                let offsets = get_shape_offset_tests(tetro.shape, tetro.orientation, direction);
                let mut turned = tetro;
                turned.rotate(direction);
                let ghost kicks = kick_offsets(tetro.shape, tetro.orientation, direction);
                let ghost there = placement(tetro, pos).turned(direction);
                proof {
                    lemma_on_board_bounds(placement(tetro, pos));
                    crate::tetromino::lemma_kick_offsets_shape(
                        tetro.shape,
                        tetro.orientation,
                        direction,
                    );
                    if self@.consistent() {
                        crate::board::lemma_rotate_keeps_consistent(self@, direction);
                    }
                }
                let mut k: usize = 0;
                while k < 5
                    invariant
                        0 <= k <= 5,
                        *self == *old(self),
                        self.current == Some((tetro, pos)),
                        offsets@ == kicks,
                        kicks == kick_offsets(tetro.shape, tetro.orientation, direction),
                        kicks.len() == 5,
                        forall|j: int|
                            0 <= j < 5 ==> -2 <= (#[trigger] kicks[j]).x <= 2 && -2 <= kicks[j].y
                                <= 2,
                        -3 <= pos.x <= 9,
                        -3 <= pos.y <= 19,
                        turned == tetro.turned(direction),
                        there == placement(tetro, pos).turned(direction),
                        first_fit(self@.rows, there, kicks, 0) == first_fit(
                            self@.rows,
                            there,
                            kicks,
                            k as int,
                        ),
                    decreases 5 - k,
                {
                    let offset = offsets[k];
                    assert(offset == kicks[k as int]);
                    let target = Pos2d { x: pos.x + offset.x, y: pos.y + offset.y };
                    assert(placement(turned, target) == there.shifted(
                        kicks[k as int].x as int,
                        kicks[k as int].y as int,
                    ));
                    let test = self.fit_test(turned, target);
                    if test {
                        self.current = Some((turned, target));
                        return ;
                    }
                    k += 1;
                }
            },
        }
    }

    /// Merges the falling piece into the settled cells: its four cells
    /// take the piece's colour, and nothing falls afterwards.
    pub fn lock(&mut self)
        requires
            old(self).well_formed(),
        ensures
            final(self)@ == old(self)@.locked(),
            final(self).well_formed(),
    {
        if let Some((tetro, pos)) = self.current {
            stamp(&mut self.grid, tetro, pos);
        }
        self.current = None;
    }

    /// Clears the full rows: the rows that are not full sink to the
    /// bottom in their order, and empty rows enter at the top.
    pub fn remove_lines(&mut self)
        ensures
            final(self)@ == old(self)@.cleared(),
            crate::grid::no_full_row(final(self)@.rows),
            old(self).well_formed() ==> final(self).well_formed(),
    {
        let source = self.grid;
        let ghost rows = grid_rows(source);
        let mut write: usize = 20;
        let mut read: usize = 20;
        proof {
            assert(rows.skip(20) =~= Seq::<crate::grid::Row>::empty());
            reveal_with_fuel(Seq::filter, 1);
            assert(kept_rows(rows.skip(20)) =~= Seq::<crate::grid::Row>::empty());
            assert(grid_rows(self.grid).skip(20) =~= Seq::<crate::grid::Row>::empty());
        }
        while read > 0
            invariant
                0 <= read <= write <= 20,
                rows == grid_rows(source),
                self.current == old(self).current,
                self.state == old(self).state,
                self.next == old(self).next,
                grid_rows(self.grid).skip(write as int) == kept_rows(rows.skip(read as int)),
            decreases read,
        {
            read -= 1;
            proof {
                assert(rows.skip(read as int) =~= seq![rows[read as int]] + rows.skip(read + 1));
                lemma_kept_rows_prepend(rows[read as int], rows.skip(read + 1));
            }
            let full = row_is_full(&source[read]);
            if !full {
                write -= 1;
                let ghost before = grid_rows(self.grid);
                self.grid[write] = source[read];
                assert(grid_rows(self.grid).skip(write as int) =~= seq![rows[read as int]]
                    + before.skip(write + 1));
            }
        }
        proof {
            assert(rows.skip(0) =~= rows);
        }
        let ghost kept = kept_rows(rows);
        while write > 0
            invariant
                0 <= write <= 20,
                rows == grid_rows(source),
                kept == kept_rows(rows),
                self.current == old(self).current,
                self.state == old(self).state,
                self.next == old(self).next,
                kept.len() <= 20,
                grid_rows(self.grid).skip(write as int) == empty_rows(
                    (20 - kept.len() - write) as nat,
                ) + kept,
                20 - kept.len() - write >= 0,
            decreases write,
        {
            write -= 1;
            let ghost before = grid_rows(self.grid);
            self.grid[write] = [None; 10];
            proof {
                assert(self.grid[write as int]@ =~= empty_row());
                assert(grid_rows(self.grid).skip(write as int) =~= seq![empty_row()] + before.skip(
                    write + 1,
                ));
                assert(seq![empty_row()] + (empty_rows((20 - kept.len() - write - 1) as nat)
                    + kept) =~= empty_rows((20 - kept.len() - write) as nat) + kept);
            }
        }
        proof {
            assert(grid_rows(self.grid).skip(0) =~= grid_rows(self.grid));
            lemma_grid_rows_shaped(source);
            lemma_compacted_shape(rows);
        }
    }

    /// Spawns a piece: takes the last shape of the queue and makes it the
    /// falling piece, facing North, at the spawn position. `bag` takes the
    /// queue's place first where the queue is exhausted. Whether the new
    /// piece overlaps settled cells is not looked at.
    pub fn spawn_from(&mut self, bag: Vec<Shape>)
        requires
            old(self).next@.len() > 0 || bag@.len() > 0,
        ensures
            final(self)@ == old(self)@.spawned(bag@),
            final(self).well_formed(),
            old(self)@.consistent() ==> final(self)@.consistent() || final(self)@.obstructed(),
    {
        if self.next.len() == 0 {
            self.next = bag;
        }
        let shape = self.next.pop().unwrap();
        self.current = Some(
            (Tetromino::new(shape, Orientation::North), Pos2d { x: SPAWN_X, y: SPAWN_Y }),
        );
        proof {
            lemma_spawn_on_board(shape);
            lemma_grid_rows_shaped(self.grid);
        }
    }

    /// Spawns a piece: takes the last shape of the queue and makes it the
    /// falling piece, facing North, at the spawn position. Where the queue
    /// is exhausted, a bag with one of each shape, shuffled at random,
    /// takes its place first. Whether the new piece overlaps settled
    /// cells is not looked at.
    ///
    /// Which order the bag has is left open. The contract names the bag by
    /// what is left of it: the new queue with the spawned shape put back is
    /// the queue that the shape was taken from.
    pub fn spawn(&mut self)
        ensures
            final(self)@ == old(self)@.spawned(final(self)@.drawn_from()),
            old(self)@.queue.len() == 0 ==> is_full_bag(final(self)@.drawn_from()),
            final(self).well_formed(),
            old(self)@.consistent() ==> final(self)@.consistent() || final(self)@.obstructed(),
    {
        let bag = if self.next.len() == 0 {
            shuffled_bag()
        } else {
            Vec::new()
        };
        proof {
            if self.next.len() == 0 {
                crate::bag::lemma_full_bag(bag@);
            }
        }
        self.spawn_from(bag);
        proof {
            let drawn = self@.drawn_from();
            if old(self)@.queue.len() == 0 {
                assert(drawn =~= bag@);
            } else {
                assert(drawn =~= old(self)@.queue);
            }
        }
    }

    /// One gravity tick. The falling piece descends by one row; if it
    /// cannot, it is locked and a new piece is spawned. Full rows are
    /// cleared either way, and a piece is spawned if none falls after
    /// that, so that a piece falls after every tick.
    ///
    /// Where the tick spawns from an exhausted queue, the bag that refills
    /// it is named as in `spawn`: by the new queue with the spawned shape
    /// put back.
    pub fn step(&mut self)
        requires
            old(self).well_formed(),
        ensures
            final(self)@ == old(self)@.stepped(final(self)@.drawn_from()),
            old(self)@.spawns_on_step() && old(self)@.queue.len() == 0 ==> is_full_bag(
                final(self)@.drawn_from(),
            ),
            final(self).well_formed(),
            final(self)@.active is Some,
            crate::grid::no_full_row(final(self)@.rows),
            old(self)@.consistent() ==> final(self)@.consistent() || (old(self)@.spawns_on_step()
                && final(self)@.obstructed()),
    {
        match self.fall() {
            Ok(_) => (),
            Err(_) => {
                self.lock();
                self.spawn()
            },
        }
        let ghost settled = self@;
        self.remove_lines();
        if self.current.is_none() {
            self.spawn()
        }
        proof {
            let bag = self@.drawn_from();
            if old(self)@.landed() {
                assert(settled.drawn_from() == bag);
            }
            crate::board::lemma_step_keeps_consistent(old(self)@, bag);
        }
    }
}

/// A piece that lies on the board has its box's corner at most three
/// cells off the board to the left and above, and on the board otherwise.
pub proof fn lemma_on_board_bounds(active: Active)
    requires
        active.on_board(),
    ensures
        -3 <= active.x <= 9,
        -3 <= active.y <= 19,
{
    crate::tetromino::lemma_tile_offsets_distinct_in_box(
        active.piece.shape,
        active.piece.orientation,
    );
    assert(active.piece.tiles()[0].x <= 3);
    assert(active.cell(0).0 == active.x + active.piece.tiles()[0].x);
}

/// Whether all four cells of `tetro`, with its box at `pos`, lie on the
/// board.
pub fn on_board(tetro: Tetromino, pos: Pos2d) -> (on_board: bool)
    ensures
        on_board == placement(tetro, pos).on_board(),
{
    let tiles = tetro.get_tiles();
    let ghost active = placement(tetro, pos);
    let mut i: usize = 0;
    while i < 4
        invariant
            0 <= i <= 4,
            tiles@ == tetro.tiles(),
            crate::tetromino::distinct_in_box(tiles@),
            active == placement(tetro, pos),
            forall|j: int|
                0 <= j < i ==> 0 <= (#[trigger] active.cell(j)).0 < WIDTH && 0 <= active.cell(j).1
                    < HEIGHT,
        decreases 4 - i,
    {
        let tile = tiles[i];
        assert(tile == tiles@[i as int]);
        assert(tile.x <= 3 && tile.y <= 3);
        let tx: isize = tile.x as isize;
        let ty: isize = tile.y as isize;
        assert(active.cell(i as int) == (pos.x + tx, pos.y + ty));
        if pos.x > 9 - tx || pos.x < 0 - tx || pos.y > 19 - ty || pos.y < 0 - ty {
            return false;
        }
        i += 1;
    }
    true
}

/// Sets the four cells of `tetro`, with its box at `pos`, to the piece's
/// colour.
pub fn stamp(grid: &mut [[Option<Color>; 10]; 20], tetro: Tetromino, pos: Pos2d)
    requires
        placement(tetro, pos).on_board(),
    ensures
        grid_rows(*final(grid)) == stamped(grid_rows(*old(grid)), placement(tetro, pos)),
{
    let tiles = tetro.get_tiles();
    let ghost active = placement(tetro, pos);
    let ghost rows = grid_rows(*grid);
    proof {
        lemma_on_board_bounds(active);
    }
    let mut i: usize = 0;
    while i < 4
        invariant
            0 <= i <= 4,
            tiles@ == tetro.tiles(),
            crate::tetromino::distinct_in_box(tiles@),
            active == placement(tetro, pos),
            active.on_board(),
            rows == grid_rows(*old(grid)),
            forall|r: int, c: int|
                0 <= r < 20 && 0 <= c < 10 ==> #[trigger] grid[r][c] == stamped_among(
                    rows,
                    active,
                    i as int,
                )[r][c],
        decreases 4 - i,
    {
        let tile = tiles[i];
        assert(tile == tiles@[i as int]);
        assert(active.cell(i as int) == (pos.x + tile.x, pos.y + tile.y));
        let row: usize = (tile.y as isize + pos.y) as usize;
        let column: usize = (tile.x as isize + pos.x) as usize;
        let ghost before = *grid;
        grid[row][column] = Some(tetro.color);
        proof {
            assert forall|r: int, c: int| 0 <= r < 20 && 0 <= c < 10 implies #[trigger] grid[r][c]
                == stamped_among(rows, active, i + 1)[r][c] by {
                assert(before[r][c] == stamped_among(rows, active, i as int)[r][c]);
                if r == row && c == column {
                    assert(active.cell(i as int) == (c, r));
                } else {
                    if active.occupies_among(i + 1, c, r) {
                        let at = choose|at: int|
                            0 <= at < i + 1 && #[trigger] active.cell(at) == (c, r);
                        assert(at < i);
                    }
                }
            }
        }
        i += 1;
    }
    assert(grid_rows(*grid) =~~= stamped(rows, active));
}

/// The rows of a grid have the playfield's dimensions.
pub proof fn lemma_grid_rows_shaped(grid: [[Option<Color>; 10]; 20])
    ensures
        crate::grid::playfield_shaped(grid_rows(grid)),
{
}

/// Whether every cell of the row is occupied.
pub fn row_is_full(row: &[Option<Color>; 10]) -> (full: bool)
    ensures
        full == row_full(row@),
{
    let mut column: usize = 0;
    while column < 10
        invariant
            0 <= column <= 10,
            forall|c: int| 0 <= c < column ==> (#[trigger] row@[c]) is Some,
        decreases 10 - column,
    {
        if row[column].is_none() {
            return false;
        }
        column += 1;
    }
    true
}

} // verus!
