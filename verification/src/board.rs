//! The game as a mathematical state machine: the settled rows, the falling
//! piece, the queue of shapes to come, and what each operation makes of
//! them.

use crate::bag::is_full_bag;
use crate::gamestate::State;
use crate::grid::{compacted, no_full_row, playfield_shaped, Rows, HEIGHT, WIDTH};
use crate::tetromino::{kick_offsets, shape_color, Shape, Tetromino};
use crate::util::{Orientation, Pos2d, RotDirection};
use vstd::prelude::*;

verus! {

/// Column at which the box of a new piece is placed.
pub const SPAWN_X: isize = 3;

/// Row at which the box of a new piece is placed.
pub const SPAWN_Y: isize = 0;

/// The falling piece and the board position of its box's top left corner.
/// The corner itself may lie off the board as long as the piece's cells
/// do not.
pub struct Active {
    pub piece: Tetromino,
    pub x: int,
    pub y: int,
}

impl Active {
    /// Column and row of the board cell that the `i`-th tile of the piece
    /// occupies.
    pub open spec fn cell(self, i: int) -> (int, int) {
        (self.x + self.piece.tiles()[i].x, self.y + self.piece.tiles()[i].y)
    }

    /// Whether one of the first `count` tiles lies on the given cell.
    pub open spec fn occupies_among(self, count: int, column: int, row: int) -> bool {
        exists|i: int| 0 <= i < count && #[trigger] self.cell(i) == (column, row)
    }

    /// Whether the piece lies on the given cell.
    pub open spec fn occupies(self, column: int, row: int) -> bool {
        self.occupies_among(4, column, row)
    }

    /// All four cells of the piece lie on the board.
    pub open spec fn on_board(self) -> bool {
        forall|i: int|
            0 <= i < 4 ==> 0 <= (#[trigger] self.cell(i)).0 < WIDTH && 0 <= self.cell(i).1 < HEIGHT
    }

    /// Whether one of the piece's cells is a settled cell of `rows`.
    pub open spec fn overlaps(self, rows: Rows) -> bool {
        exists|i: int|
            0 <= i < 4 && {
                let (column, row) = #[trigger] self.cell(i);
                rows[row][column] is Some
            }
    }

    /// The piece displaced by `dx` columns and `dy` rows.
    pub open spec fn shifted(self, dx: int, dy: int) -> Active {
        Active { piece: self.piece, x: self.x + dx, y: self.y + dy }
    }

    /// The piece after a quarter turn about its box, in place.
    pub open spec fn turned(self, direction: RotDirection) -> Active {
        Active { piece: self.piece.turned(direction), x: self.x, y: self.y }
    }

    /// The entry of the kick table for a turn of the piece in `direction`.
    pub open spec fn kicks(self, direction: RotDirection) -> Seq<Pos2d> {
        kick_offsets(self.piece.shape, self.piece.orientation, direction)
    }

    /// A new piece of the given shape: it faces North and its box stands at
    /// the spawn position.
    pub open spec fn spawn(shape: Shape) -> Active {
        Active {
            piece: Tetromino {
                shape,
                orientation: Orientation::North,
                color: shape_color(shape),
            },
            x: SPAWN_X as int,
            y: SPAWN_Y as int,
        }
    }
}

/// The fit test: all four cells of the piece lie on the board and on
/// empty cells of `rows`.
pub open spec fn fits(rows: Rows, active: Active) -> bool {
    forall|i: int|
        0 <= i < 4 ==> {
            let (column, row) = #[trigger] active.cell(i);
            &&& 0 <= column < WIDTH
            &&& 0 <= row < HEIGHT
            &&& rows[row][column] is None
        }
}

/// The rows with the piece's four cells set to the piece's colour.
pub open spec fn stamped(rows: Rows, active: Active) -> Rows {
    stamped_among(rows, active, 4)
}

/// The rows with the cells of the piece's first `count` tiles set to the
/// piece's colour.
pub open spec fn stamped_among(rows: Rows, active: Active, count: int) -> Rows {
    Seq::new(
        rows.len(),
        |row: int|
            Seq::new(
                rows[row].len(),
                |column: int|
                    if active.occupies_among(count, column, row) {
                        Some(active.piece.color)
                    } else {
                        rows[row][column]
                    },
            ),
    )
}

/// The first of the placements `turned` displaced by `kicks[from]`,
/// `kicks[from + 1]`, ... that fits, if any does.
pub open spec fn first_fit(
    rows: Rows,
    turned: Active,
    kicks: Seq<Pos2d>,
    from: int,
) -> Option<Active>
    decreases kicks.len() - from,
{
    if from < 0 || from >= kicks.len() {
        None
    } else if fits(rows, turned.shifted(kicks[from].x as int, kicks[from].y as int)) {
        Some(turned.shifted(kicks[from].x as int, kicks[from].y as int))
    } else {
        first_fit(rows, turned, kicks, from + 1)
    }
}

/// The state of a game.
pub struct Board {
    /// The settled cells.
    pub rows: Rows,
    /// The falling piece, if there is one.
    pub active: Option<Active>,
    /// Whether the game is running.
    pub state: State,
    /// The shapes to come; the last one is spawned next.
    pub queue: Seq<Shape>,
}

impl Board {
    /// A fresh game: an empty playfield, no piece, an empty queue.
    pub open spec fn fresh() -> Board {
        Board {
            rows: crate::grid::empty_rows(HEIGHT as nat),
            active: None,
            state: State::Running,
            queue: Seq::empty(),
        }
    }

    /// The playfield has its dimensions and the falling piece, if any,
    /// lies on the board.
    pub open spec fn well_formed(self) -> bool {
        &&& playfield_shaped(self.rows)
        &&& self.active matches Some(active) ==> active.on_board()
    }

    /// The state between two operations of an undisturbed game: no row is
    /// full, and the falling piece lies on the board and on empty cells
    /// only.
    pub open spec fn consistent(self) -> bool {
        &&& playfield_shaped(self.rows)
        &&& no_full_row(self.rows)
        &&& self.active matches Some(active) ==> fits(self.rows, active)
    }

    /// Whether there is a falling piece that fits when displaced by `dx`
    /// columns and `dy` rows.
    pub open spec fn can_move(self, dx: int, dy: int) -> bool {
        self.active matches Some(active) && fits(self.rows, active.shifted(dx, dy))
    }

    /// The falling piece displaced by `dx` columns and `dy` rows if it
    /// fits there; the same state if it does not or if nothing falls.
    pub open spec fn moved(self, dx: int, dy: int) -> Board {
        if self.can_move(dx, dy) {
            Board { active: Some(self.active->0.shifted(dx, dy)), ..self }
        } else {
            self
        }
    }

    /// Whether there is a falling piece that cannot descend.
    pub open spec fn landed(self) -> bool {
        self.active is Some && !self.can_move(0, 1)
    }

    /// Where the falling piece comes to stand when it turns in
    /// `direction`: the turned piece at the first displacement of its kick
    /// table entry that fits, if any does.
    pub open spec fn rotation_target(self, direction: RotDirection) -> Option<Active> {
        match self.active {
            Some(active) => first_fit(
                self.rows,
                active.turned(direction),
                active.kicks(direction),
                0,
            ),
            None => None,
        }
    }

    /// The falling piece turned in `direction` and displaced by the first
    /// kick that fits; the same state if no kick fits or if nothing falls.
    pub open spec fn rotated(self, direction: RotDirection) -> Board {
        match self.rotation_target(direction) {
            Some(target) => Board { active: Some(target), ..self },
            None => self,
        }
    }

    /// The falling piece merged into the settled cells; nothing falls
    /// afterwards.
    pub open spec fn locked(self) -> Board {
        match self.active {
            Some(active) => Board { rows: stamped(self.rows, active), active: None, ..self },
            None => self,
        }
    }

    /// What a player sees: the settled cells with the falling piece drawn
    /// over them.
    pub open spec fn shown(self) -> Rows {
        match self.active {
            Some(active) => stamped(self.rows, active),
            None => self.rows,
        }
    }

    /// The full rows cleared.
    pub open spec fn cleared(self) -> Board {
        Board { rows: compacted(self.rows), ..self }
    }

    /// The queue from which the next shape is taken: the queue itself, or
    /// `bag` where the queue is exhausted.
    pub open spec fn supply(self, bag: Seq<Shape>) -> Seq<Shape> {
        if self.queue.len() == 0 {
            bag
        } else {
            self.queue
        }
    }

    /// A new piece spawned. Its shape is the last of the queue; where the
    /// queue is exhausted, `bag` replaces it first.
    pub open spec fn spawned(self, bag: Seq<Shape>) -> Board {
        Board {
            active: Some(Active::spawn(self.supply(bag).last())),
            queue: self.supply(bag).drop_last(),
            ..self
        }
    }

    /// One gravity tick. The piece descends by a row; if it cannot, it is
    /// locked and a new piece is spawned. Full rows are cleared either
    /// way, and a piece is spawned if none falls after that. `bag` is what
    /// refills an exhausted queue.
    pub open spec fn stepped(self, bag: Seq<Shape>) -> Board {
        let settled = if self.landed() {
            self.locked().spawned(bag)
        } else {
            self.moved(0, 1)
        };
        let cleared = settled.cleared();
        if cleared.active is None {
            cleared.spawned(bag)
        } else {
            cleared
        }
    }

    /// The falling piece does not fit where it stands: it overlaps a
    /// settled cell or leaves the board.
    pub open spec fn obstructed(self) -> bool {
        self.active matches Some(active) && !fits(self.rows, active)
    }

    /// Whether a gravity tick spawns a piece.
    pub open spec fn spawns_on_step(self) -> bool {
        self.active is None || self.landed()
    }

    /// The queue as it stood before the falling piece was taken from it.
    pub open spec fn drawn_from(self) -> Seq<Shape> {
        match self.active {
            Some(active) => self.queue.push(active.piece.shape),
            None => self.queue,
        }
    }

    /// The shape that the `n`-th spawn from now brings, counting from 0,
    /// where `bag` refills the queue each time it is exhausted.
    pub open spec fn nth_spawn(self, bag: Seq<Shape>, n: nat) -> Shape
        decreases n,
    {
        if n == 0 {
            self.supply(bag).last()
        } else {
            self.spawned(bag).nth_spawn(bag, (n - 1) as nat)
        }
    }
}

/// An operation that a driver asks of the game. An operation that may
/// spawn carries the bag that refills the queue if it spawns from an
/// exhausted one.
pub enum Operation {
    Spawn(Seq<Shape>),
    Step(Seq<Shape>),
    Fall,
    MoveLeft,
    MoveRight,
    Rotate(RotDirection),
}

impl Board {
    /// The state after one operation.
    pub open spec fn after(self, operation: Operation) -> Board {
        match operation {
            Operation::Spawn(bag) => self.spawned(bag),
            Operation::Step(bag) => self.stepped(bag),
            Operation::Fall => self.moved(0, 1),
            Operation::MoveLeft => self.moved(-1, 0),
            Operation::MoveRight => self.moved(1, 0),
            Operation::Rotate(direction) => self.rotated(direction),
        }
    }

    /// The state after a sequence of operations.
    pub open spec fn after_all(self, operations: Seq<Operation>) -> Board
        decreases operations.len(),
    {
        if operations.len() == 0 {
            self
        } else {
            self.after_all(operations.drop_last()).after(operations.last())
        }
    }

    /// Whether the operation spawns a piece in this state.
    pub open spec fn spawns_on(self, operation: Operation) -> bool {
        match operation {
            Operation::Spawn(_) => true,
            Operation::Step(_) => self.spawns_on_step(),
            _ => false,
        }
    }
}

/// A fresh game is consistent.
pub proof fn lemma_fresh_is_consistent()
    ensures
        Board::fresh().consistent(),
{
    assert forall|r: int| 0 <= r < HEIGHT implies !crate::grid::row_full(
        #[trigger] Board::fresh().rows[r],
    ) by {
        assert(Board::fresh().rows[r][0] is None);
    }
}

/// A piece on the board that does not fit lies on a settled cell.
pub proof fn lemma_obstructed_is_overlap(board: Board)
    requires
        board.well_formed(),
        board.obstructed(),
    ensures
        board.active matches Some(active) && active.overlaps(board.rows),
{
    let active = board.active->0;
    let i = choose|i: int|
        0 <= i < 4 && !({
            let (column, row) = #[trigger] active.cell(i);
            &&& 0 <= column < WIDTH
            &&& 0 <= row < HEIGHT
            &&& board.rows[row][column] is None
        });
    assert(0 <= active.cell(i).0 < WIDTH && 0 <= active.cell(i).1 < HEIGHT);
    assert(board.rows[active.cell(i).1][active.cell(i).0] is Some);
}

/// One operation keeps the falling piece on the board and the playfield
/// free of full rows, and it keeps a consistent state consistent unless it
/// spawns a piece onto settled cells.
pub proof fn lemma_operation_keeps_consistent(board: Board, operation: Operation)
    requires
        board.well_formed(),
        no_full_row(board.rows),
    ensures
        board.after(operation).well_formed(),
        no_full_row(board.after(operation).rows),
        board.consistent() ==> board.after(operation).consistent() || (board.spawns_on(operation)
            && board.after(operation).obstructed()),
{
    match operation {
        Operation::Spawn(bag) => lemma_spawn_keeps_consistent(board, bag),
        Operation::Step(bag) => lemma_step_keeps_consistent(board, bag),
        Operation::Rotate(direction) => {
            if let Some(active) = board.active {
                lemma_first_fit(
                    board.rows,
                    active.turned(direction),
                    active.kicks(direction),
                    0,
                );
            }
        },
        _ => {},
    }
}

/// The no-overlap invariant: after any sequence of operations on a
/// consistent state, the falling piece lies on the board and no row is
/// full; and the piece lies on empty cells only, so that the state is
/// consistent again, unless it does not fit where it stands, which only a
/// spawn onto settled cells brings about.
pub proof fn lemma_play_keeps_consistent(board: Board, operations: Seq<Operation>)
    requires
        board.consistent(),
    ensures
        board.after_all(operations).well_formed(),
        no_full_row(board.after_all(operations).rows),
        board.after_all(operations).consistent() || board.after_all(operations).obstructed(),
    decreases operations.len(),
{
    if operations.len() > 0 {
        lemma_play_keeps_consistent(board, operations.drop_last());
        lemma_operation_keeps_consistent(
            board.after_all(operations.drop_last()),
            operations.last(),
        );
    }
}

/// Moving keeps a consistent state consistent, whether the piece moves or
/// stays.
pub proof fn lemma_move_keeps_consistent(board: Board, dx: int, dy: int)
    requires
        board.consistent(),
    ensures
        board.moved(dx, dy).consistent(),
{
}

/// In a consistent state the falling piece lies on the board, and none of
/// its cells is a settled cell.
pub proof fn lemma_consistent_is_well_formed(board: Board)
    requires
        board.consistent(),
    ensures
        board.well_formed(),
        !board.obstructed(),
        board.active matches Some(active) ==> forall|column: int, row: int|
            #[trigger] active.occupies(column, row) ==> 0 <= column < WIDTH && 0 <= row < HEIGHT
                && board.rows[row][column] is None,
{
    if let Some(active) = board.active {
        assert forall|column: int, row: int| #[trigger] active.occupies(column, row) implies 0
            <= column < WIDTH && 0 <= row < HEIGHT && board.rows[row][column] is None by {
            let i = choose|i: int| 0 <= i < 4 && #[trigger] active.cell(i) == (column, row);
            assert(active.cell(i) == (column, row));
        }
    }
}

/// The four cells of a piece are four different cells.
pub proof fn lemma_active_cells_apart(active: Active)
    ensures
        forall|i: int, j: int|
            0 <= i < j < 4 ==> #[trigger] active.cell(i) != #[trigger] active.cell(j),
{
    crate::tetromino::lemma_tile_offsets_distinct_in_box(
        active.piece.shape,
        active.piece.orientation,
    );
    assert forall|i: int, j: int| 0 <= i < j < 4 implies #[trigger] active.cell(i)
        != #[trigger] active.cell(j) by {
        assert(active.piece.tiles()[i] != active.piece.tiles()[j]);
    }
}

/// Stamping one tile more occupies that tile's cell.
pub proof fn lemma_stamp_one_more(rows: Rows, active: Active, count: int)
    requires
        playfield_shaped(rows),
        active.on_board(),
        0 <= count < 4,
    ensures
        stamped_among(rows, active, count + 1) == stamped_among(rows, active, count).update(
            active.cell(count).1,
            stamped_among(rows, active, count)[active.cell(count).1].update(
                active.cell(count).0,
                Some(active.piece.color),
            ),
        ),
{
    let (column, row) = active.cell(count);
    let before = stamped_among(rows, active, count);
    let after = stamped_among(rows, active, count + 1);
    let updated = before.update(row, before[row].update(column, Some(active.piece.color)));
    assert forall|r: int, c: int| 0 <= r < HEIGHT && 0 <= c < WIDTH implies #[trigger] after[r][c]
        == updated[r][c] by {
        if r == row && c == column {
            assert(active.cell(count) == (c, r));
        } else if active.occupies_among(count + 1, c, r) {
            let at = choose|at: int| 0 <= at < count + 1 && #[trigger] active.cell(at) == (c, r);
            assert(at < count);
        }
    }
    assert(after =~~= updated);
}

/// Stamping the first `count` tiles of a piece that fits occupies `count`
/// cells that were empty.
pub proof fn lemma_stamp_counts(rows: Rows, active: Active, count: int)
    requires
        playfield_shaped(rows),
        fits(rows, active),
        0 <= count <= 4,
    ensures
        crate::grid::filled_cells(stamped_among(rows, active, count)) == crate::grid::filled_cells(
            rows,
        ) + count,
    decreases count,
{
    if count == 0 {
        assert(stamped_among(rows, active, 0) =~~= rows);
    } else {
        let (column, row) = active.cell(count - 1);
        let before = stamped_among(rows, active, count - 1);
        crate::tetromino::lemma_tile_offsets_distinct_in_box(
            active.piece.shape,
            active.piece.orientation,
        );
        assert(before[row][column] is None) by {
            if active.occupies_among(count - 1, column, row) {
                let at = choose|at: int|
                    0 <= at < count - 1 && #[trigger] active.cell(at) == (column, row);
                assert(active.piece.tiles()[at] != active.piece.tiles()[count - 1]);
            }
        }
        lemma_stamp_counts(rows, active, count - 1);
        lemma_stamp_one_more(rows, active, count - 1);
        crate::grid::lemma_occupy_cell(before, row, column, active.piece.color);
    }
}

/// Locking adds four occupied cells: a piece that fits is merged into
/// cells that were empty, one for each of its tiles.
pub proof fn lemma_lock_adds_four_cells(rows: Rows, active: Active)
    requires
        playfield_shaped(rows),
        fits(rows, active),
    ensures
        crate::grid::filled_cells(stamped(rows, active)) == crate::grid::filled_cells(rows) + 4,
{
    lemma_stamp_counts(rows, active, 4);
}

/// The lock-and-clear path by count: locking a piece that fits and then
/// clearing changes the number of occupied cells by the four of the piece
/// less `WIDTH` for each row that the piece completed.
pub proof fn lemma_lock_and_clear_counts(board: Board)
    requires
        playfield_shaped(board.rows),
        board.active matches Some(active) && fits(board.rows, active),
    ensures
        crate::grid::filled_cells(board.locked().cleared().rows) + WIDTH
            * crate::grid::full_row_count(board.locked().rows) == crate::grid::filled_cells(
            board.rows,
        ) + 4,
{
    lemma_lock_adds_four_cells(board.rows, board.active->0);
    crate::grid::lemma_clearing_counts(board.locked().rows);
}

/// Spawning leaves a well-formed state, and a consistent state stays
/// consistent unless the new piece overlaps a settled cell.
pub proof fn lemma_spawn_keeps_consistent(board: Board, bag: Seq<Shape>)
    requires
        playfield_shaped(board.rows),
    ensures
        board.spawned(bag).well_formed(),
        board.consistent() ==> board.spawned(bag).consistent() || board.spawned(bag).obstructed(),
{
    lemma_spawn_on_board(board.supply(bag).last());
}

/// A gravity tick leaves a well-formed state with a falling piece and
/// without full rows, and a consistent state stays consistent unless a
/// piece is spawned onto a settled cell.
pub proof fn lemma_step_keeps_consistent(board: Board, bag: Seq<Shape>)
    requires
        board.well_formed(),
    ensures
        board.stepped(bag).well_formed(),
        board.stepped(bag).active is Some,
        no_full_row(board.stepped(bag).rows),
        board.consistent() ==> board.stepped(bag).consistent() || (board.spawns_on_step()
            && board.stepped(bag).obstructed()),
{
    let settled = if board.landed() {
        board.locked().spawned(bag)
    } else {
        board.moved(0, 1)
    };
    lemma_spawn_keeps_consistent(board.locked(), bag);
    crate::grid::lemma_compacted_shape(settled.rows);
    lemma_spawn_keeps_consistent(settled.cleared(), bag);
    if board.consistent() && !board.spawns_on_step() {
        crate::grid::lemma_nothing_to_clear(board.rows);
    }
}

/// A placement that `first_fit` finds fits, and it is the turned piece
/// displaced by one of the kicks, before which no kick fits.
pub proof fn lemma_first_fit(rows: Rows, turned: Active, kicks: Seq<Pos2d>, from: int)
    requires
        0 <= from,
    ensures
        match first_fit(rows, turned, kicks, from) {
            Some(target) => exists|k: int|
                {
                    &&& from <= k < kicks.len()
                    &&& target == #[trigger] turned.shifted(kicks[k].x as int, kicks[k].y as int)
                    &&& fits(rows, target)
                    &&& forall|j: int|
                        from <= j < k ==> !fits(
                            rows,
                            #[trigger] turned.shifted(kicks[j].x as int, kicks[j].y as int),
                        )
                },
            None => forall|j: int|
                from <= j < kicks.len() ==> !fits(
                    rows,
                    #[trigger] turned.shifted(kicks[j].x as int, kicks[j].y as int),
                ),
        },
    decreases kicks.len() - from,
{
    if from < kicks.len() {
        let here = turned.shifted(kicks[from].x as int, kicks[from].y as int);
        if !fits(rows, here) {
            lemma_first_fit(rows, turned, kicks, from + 1);
            match first_fit(rows, turned, kicks, from + 1) {
                Some(target) => {
                    let k = choose|k: int|
                        {
                            &&& from + 1 <= k < kicks.len()
                            &&& target == #[trigger] turned.shifted(
                                kicks[k].x as int,
                                kicks[k].y as int,
                            )
                            &&& fits(rows, target)
                            &&& forall|j: int|
                                from + 1 <= j < k ==> !fits(
                                    rows,
                                    #[trigger] turned.shifted(kicks[j].x as int, kicks[j].y as int),
                                )
                        };
                    assert forall|j: int| from <= j < k implies !fits(
                        rows,
                        #[trigger] turned.shifted(kicks[j].x as int, kicks[j].y as int),
                    ) by {}
                },
                None => {},
            }
        }
    }
}

/// Turning keeps a consistent state consistent, whether the piece turns or
/// stays.
pub proof fn lemma_rotate_keeps_consistent(board: Board, direction: RotDirection)
    requires
        board.consistent(),
    ensures
        board.rotated(direction).consistent(),
{
    if let Some(active) = board.active {
        lemma_first_fit(
            board.rows,
            active.turned(direction),
            kick_offsets(active.piece.shape, active.piece.orientation, direction),
            0,
        );
    }
}

/// Kick exhaustion: where the turned piece fits at none of the five
/// displacements of its kick table entry, turning changes nothing.
pub proof fn lemma_kick_exhaustion(board: Board, direction: RotDirection)
    requires
        board.active matches Some(active) ==> forall|k: int|
            0 <= k < 5 ==> !fits(
                board.rows,
                #[trigger] active.turned(direction).shifted(
                    active.kicks(direction)[k].x as int,
                    active.kicks(direction)[k].y as int,
                ),
            ),
    ensures
        board.rotated(direction) == board,
{
    if let Some(active) = board.active {
        let kicks = kick_offsets(active.piece.shape, active.piece.orientation, direction);
        crate::tetromino::lemma_kick_offsets_shape(
            active.piece.shape,
            active.piece.orientation,
            direction,
        );
        lemma_first_fit(board.rows, active.turned(direction), kicks, 0);
    }
}

/// Rotation reversibility: where the falling piece fits as it stands and
/// would also fit turned in place, a quarter turn followed by the opposite
/// quarter turn gives the state back, orientation and position alike.
pub proof fn lemma_rotate_and_back(board: Board, direction: RotDirection)
    requires
        board.active matches Some(active) && fits(board.rows, active) && fits(
            board.rows,
            active.turned(direction),
        ),
    ensures
        board.rotated(direction).active == Some(board.active->0.turned(direction)),
        board.rotated(direction).rotated(direction.reversed()) == board,
{
    let active = board.active->0;
    let there = active.turned(direction);
    let kicks = kick_offsets(active.piece.shape, active.piece.orientation, direction);
    crate::tetromino::lemma_kick_offsets_shape(
        active.piece.shape,
        active.piece.orientation,
        direction,
    );
    assert(there.shifted(kicks[0].x as int, kicks[0].y as int) == there);
    assert(board.rotated(direction).active == Some(there));
    let back_kicks = kick_offsets(
        there.piece.shape,
        there.piece.orientation,
        direction.reversed(),
    );
    crate::tetromino::lemma_kick_offsets_shape(
        there.piece.shape,
        there.piece.orientation,
        direction.reversed(),
    );
    crate::util::lemma_turn_and_back(active.piece.orientation, direction);
    let back = there.turned(direction.reversed());
    assert(back == active);
    assert(back.shifted(back_kicks[0].x as int, back_kicks[0].y as int) == active);
}

/// The O piece always turns, and in place: it covers the same cells in
/// every orientation, so where it fits it fits turned as well.
pub proof fn lemma_o_piece_always_turns(board: Board, direction: RotDirection)
    requires
        board.active matches Some(active) && active.piece.shape == Shape::O && fits(
            board.rows,
            active,
        ),
    ensures
        board.rotated(direction).active == Some(board.active->0.turned(direction)),
{
    let active = board.active->0;
    let there = active.turned(direction);
    crate::tetromino::lemma_kick_offsets_shape(
        active.piece.shape,
        active.piece.orientation,
        direction,
    );
    assert forall|i: int| 0 <= i < 4 implies #[trigger] there.cell(i) == active.cell(i) by {}
    assert(there.shifted(0, 0) == there);
}

/// A new piece lies on the board, whatever its shape.
pub proof fn lemma_spawn_on_board(shape: Shape)
    ensures
        Active::spawn(shape).on_board(),
{
    crate::tetromino::lemma_tile_offsets_distinct_in_box(shape, Orientation::North);
    let active = Active::spawn(shape);
    assert forall|i: int| 0 <= i < 4 implies 0 <= (#[trigger] active.cell(i)).0 < WIDTH && 0
        <= active.cell(i).1 < HEIGHT by {
        assert(active.piece.tiles()[i].x <= 3);
    }
}

/// Seven successive spawns that start on an exhausted queue bring each of
/// the seven shapes exactly once, whatever order the refill has.
pub proof fn lemma_bag_fairness(board: Board, bag: Seq<Shape>, shape: Shape)
    requires
        board.queue.len() == 0,
        is_full_bag(bag),
    ensures
        exists|n: nat| n < 7 && #[trigger] board.nth_spawn(bag, n) == shape,
        forall|m: nat, n: nat|
            #![trigger board.nth_spawn(bag, m), board.nth_spawn(bag, n)]
            m < 7 && n < 7 && board.nth_spawn(bag, m) == shape && board.nth_spawn(bag, n) == shape
                ==> m == n,
{
    crate::bag::lemma_full_bag(bag);
    assert forall|n: nat| n < 7 implies #[trigger] board.nth_spawn(bag, n) == bag[6 - n] by {
        lemma_nth_spawn_from_refill(board, bag, n);
    }
    assert(bag.contains(shape));
    let at = choose|at: int| 0 <= at < 7 && bag[at] == shape;
    assert(board.nth_spawn(bag, (6 - at) as nat) == shape);
}

/// While the queue lasts, the `n`-th spawn takes the queue's `n`-th shape
/// from the end.
pub proof fn lemma_nth_spawn_from_queue(board: Board, bag: Seq<Shape>, n: nat)
    requires
        n < board.queue.len(),
    ensures
        board.nth_spawn(bag, n) == board.queue[board.queue.len() - 1 - n],
    decreases n,
{
    if n > 0 {
        lemma_nth_spawn_from_queue(board.spawned(bag), bag, (n - 1) as nat);
    }
}

/// After a refill, the `n`-th spawn takes the bag's `n`-th shape from the
/// end.
pub proof fn lemma_nth_spawn_from_refill(board: Board, bag: Seq<Shape>, n: nat)
    requires
        board.queue.len() == 0,
        n < bag.len(),
    ensures
        board.nth_spawn(bag, n) == bag[bag.len() - 1 - n],
{
    if n > 0 {
        lemma_nth_spawn_from_queue(board.spawned(bag), bag, (n - 1) as nat);
    }
}

} // verus!
