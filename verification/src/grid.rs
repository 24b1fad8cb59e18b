//! The playfield as a sequence of rows, and what clearing full rows does
//! to it.

use crate::tetromino::Color;
use vstd::prelude::*;

verus! {

/// Number of columns of the playfield.
pub const WIDTH: usize = 10;

/// Number of rows of the playfield. Row 0 is the top row.
pub const HEIGHT: usize = 20;

/// One row of cells, left to right. A cell is empty or holds the colour of
/// the piece that settled there.
pub type Row = Seq<Option<Color>>;

/// The rows of a playfield, top to bottom.
pub type Rows = Seq<Row>;

/// A row of `WIDTH` empty cells.
pub open spec fn empty_row() -> Row {
    Seq::new(WIDTH as nat, |column: int| None::<Color>)
}

/// `count` empty rows.
pub open spec fn empty_rows(count: nat) -> Rows {
    Seq::new(count, |row: int| empty_row())
}

/// The rows have the playfield's dimensions.
pub open spec fn playfield_shaped(rows: Rows) -> bool {
    &&& rows.len() == HEIGHT
    &&& forall|r: int| 0 <= r < rows.len() ==> (#[trigger] rows[r]).len() == WIDTH
}

/// A row is full when every cell of it is occupied.
pub open spec fn row_full(row: Row) -> bool {
    forall|column: int| 0 <= column < row.len() ==> (#[trigger] row[column]) is Some
}

/// The rows that are not full, in their order.
pub open spec fn kept_rows(rows: Rows) -> Rows {
    rows.filter(|row: Row| !row_full(row))
}

/// Number of full rows.
pub open spec fn full_row_count(rows: Rows) -> nat {
    (rows.len() - kept_rows(rows).len()) as nat
}

/// The playfield after its full rows are cleared: the rows that are not
/// full keep their order and sink to the bottom, and as many empty rows as
/// were cleared enter at the top.
pub open spec fn compacted(rows: Rows) -> Rows {
    empty_rows(full_row_count(rows)) + kept_rows(rows)
}

/// No row is full.
pub open spec fn no_full_row(rows: Rows) -> bool {
    forall|r: int| 0 <= r < rows.len() ==> !row_full(#[trigger] rows[r])
}

/// Number of occupied cells of a row.
pub open spec fn filled_in_row(row: Row) -> nat {
    row.filter(|cell: Option<Color>| cell is Some).len()
}

/// Number of occupied cells of all rows together.
pub open spec fn filled_cells(rows: Rows) -> nat
    decreases rows.len(),
{
    if rows.len() == 0 {
        0
    } else {
        filled_cells(rows.drop_last()) + filled_in_row(rows.last())
    }
}

/// Keeping the rows that are not full goes row by row from the top: a row
/// set in front is kept or dropped by itself.
pub proof fn lemma_kept_rows_prepend(row: Row, below: Rows)
    ensures
        kept_rows(seq![row] + below) == if row_full(row) {
            kept_rows(below)
        } else {
            seq![row] + kept_rows(below)
        },
{
    let keep = |row: Row| !row_full(row);
    Seq::filter_distributes_over_add(seq![row], below, keep);
    reveal_with_fuel(Seq::filter, 2);
    assert(seq![row].drop_last() =~= Seq::<Row>::empty());
    assert(seq![row].filter(keep) =~= if row_full(row) {
        Seq::<Row>::empty()
    } else {
        seq![row]
    });
    assert(Seq::<Row>::empty() + kept_rows(below) =~= kept_rows(below));
}

/// Every kept row is a row of the playfield that is not full.
pub proof fn lemma_kept_rows_are_not_full(rows: Rows)
    ensures
        no_full_row(kept_rows(rows)),
        kept_rows(rows).len() <= rows.len(),
        forall|k: int|
            0 <= k < kept_rows(rows).len() ==> rows.contains(#[trigger] kept_rows(rows)[k]),
    decreases rows.len(),
{
    reveal(Seq::filter);
    if rows.len() > 0 {
        lemma_kept_rows_are_not_full(rows.drop_last());
        let above = kept_rows(rows.drop_last());
        assert forall|k: int| 0 <= k < kept_rows(rows).len() implies rows.contains(
            #[trigger] kept_rows(rows)[k],
        ) && !row_full(kept_rows(rows)[k]) by {
            if k < above.len() {
                assert(kept_rows(rows)[k] == above[k]);
                let at = choose|at: int|
                    0 <= at < rows.drop_last().len() && rows.drop_last()[at] == above[k];
                assert(rows[at] == above[k]);
            } else {
                assert(kept_rows(rows)[k] == rows.last());
                assert(rows[rows.len() - 1] == rows.last());
            }
        }
    }
}

/// Where no row is full, every row is kept.
pub proof fn lemma_nothing_to_clear(rows: Rows)
    requires
        no_full_row(rows),
    ensures
        kept_rows(rows) == rows,
        compacted(rows) == rows,
    decreases rows.len(),
{
    reveal(Seq::filter);
    if rows.len() > 0 {
        assert(!row_full(rows[rows.len() - 1]));
        assert forall|r: int| 0 <= r < rows.drop_last().len() implies !row_full(
            #[trigger] rows.drop_last()[r],
        ) by {
            assert(rows.drop_last()[r] == rows[r]);
        }
        lemma_nothing_to_clear(rows.drop_last());
        assert(kept_rows(rows) =~= rows);
    } else {
        assert(kept_rows(rows) =~= rows);
    }
    assert(compacted(rows) =~= rows);
}

/// Clearing keeps the playfield's dimensions and leaves no full row.
pub proof fn lemma_compacted_shape(rows: Rows)
    requires
        playfield_shaped(rows),
    ensures
        playfield_shaped(compacted(rows)),
        no_full_row(compacted(rows)),
{
    lemma_kept_rows_are_not_full(rows);
    let cleared = compacted(rows);
    let top = full_row_count(rows);
    assert forall|r: int| 0 <= r < cleared.len() implies (#[trigger] cleared[r]).len() == WIDTH
        && !row_full(cleared[r]) by {
        if r < top {
            assert(cleared[r] == empty_row());
            assert(empty_row()[0] is None);
        } else {
            let kept = kept_rows(rows)[r - top];
            assert(cleared[r] == kept);
            assert(rows.contains(kept));
        }
    }
}

/// A full row has as many occupied cells as it has cells.
pub proof fn lemma_full_row_filled(row: Row)
    requires
        row_full(row),
    ensures
        filled_in_row(row) == row.len(),
    decreases row.len(),
{
    reveal(Seq::filter);
    if row.len() > 0 {
        assert(row[row.len() - 1] is Some);
        assert forall|c: int| 0 <= c < row.drop_last().len() implies (
        #[trigger] row.drop_last()[c]) is Some by {
            assert(row.drop_last()[c] == row[c]);
        }
        lemma_full_row_filled(row.drop_last());
    }
}

/// A row without occupied cells counts none.
pub proof fn lemma_vacant_row_filled(row: Row)
    requires
        forall|c: int| 0 <= c < row.len() ==> (#[trigger] row[c]) is None,
    ensures
        filled_in_row(row) == 0,
    decreases row.len(),
{
    reveal(Seq::filter);
    if row.len() > 0 {
        assert(row[row.len() - 1] is None);
        assert forall|c: int| 0 <= c < row.drop_last().len() implies (
        #[trigger] row.drop_last()[c]) is None by {
            assert(row.drop_last()[c] == row[c]);
        }
        lemma_vacant_row_filled(row.drop_last());
    }
}

/// The occupied cells of two stacks of rows add up.
pub proof fn lemma_filled_cells_add(above: Rows, below: Rows)
    ensures
        filled_cells(above + below) == filled_cells(above) + filled_cells(below),
    decreases below.len(),
{
    if below.len() == 0 {
        assert(above + below =~= above);
    } else {
        assert((above + below).drop_last() =~= above + below.drop_last());
        assert((above + below).last() == below.last());
        lemma_filled_cells_add(above, below.drop_last());
    }
}

/// Empty rows hold no occupied cell.
pub proof fn lemma_empty_rows_filled(count: nat)
    ensures
        filled_cells(empty_rows(count)) == 0,
    decreases count,
{
    if count > 0 {
        assert(empty_rows(count).drop_last() =~= empty_rows((count - 1) as nat));
        assert(empty_rows(count).last() == empty_row());
        lemma_vacant_row_filled(empty_row());
        lemma_empty_rows_filled((count - 1) as nat);
    }
}

/// The kept rows hold the occupied cells of all rows but those of the
/// full rows, of which each holds `WIDTH`.
pub proof fn lemma_kept_rows_filled(rows: Rows)
    requires
        forall|r: int| 0 <= r < rows.len() ==> (#[trigger] rows[r]).len() == WIDTH,
    ensures
        kept_rows(rows).len() <= rows.len(),
        filled_cells(kept_rows(rows)) + WIDTH * full_row_count(rows) == filled_cells(rows),
    decreases rows.len(),
{
    reveal(Seq::filter);
    if rows.len() > 0 {
        let above = rows.drop_last();
        assert forall|r: int| 0 <= r < above.len() implies (#[trigger] above[r]).len() == WIDTH by {
            assert(above[r] == rows[r]);
        }
        lemma_kept_rows_filled(above);
        assert(rows.last() == rows[rows.len() - 1]);
        if row_full(rows.last()) {
            assert(kept_rows(rows) == kept_rows(above));
            lemma_full_row_filled(rows.last());
        } else {
            assert(kept_rows(rows) == kept_rows(above).push(rows.last()));
            assert(kept_rows(rows).drop_last() =~= kept_rows(above));
        }
    }
}

/// Line clear correctness, by count: clearing takes away `WIDTH` occupied
/// cells for each full row, and no others.
pub proof fn lemma_clearing_counts(rows: Rows)
    requires
        playfield_shaped(rows),
    ensures
        filled_cells(compacted(rows)) + WIDTH * full_row_count(rows) == filled_cells(rows),
        compacted(rows).len() == rows.len(),
{
    lemma_kept_rows_filled(rows);
    lemma_filled_cells_add(empty_rows(full_row_count(rows)), kept_rows(rows));
    lemma_empty_rows_filled(full_row_count(rows));
}

/// Line clear correctness, by place: where the bottom row is the only
/// full row, clearing removes it, moves every other row down by one, and
/// leaves the top row empty.
pub proof fn lemma_clearing_bottom_row(rows: Rows)
    requires
        playfield_shaped(rows),
        row_full(rows[HEIGHT - 1]),
        forall|r: int| 0 <= r < HEIGHT - 1 ==> !row_full(#[trigger] rows[r]),
    ensures
        full_row_count(rows) == 1,
        compacted(rows).len() == HEIGHT,
        compacted(rows)[0] == empty_row(),
        forall|r: int| 0 <= r < HEIGHT - 1 ==> #[trigger] compacted(rows)[r + 1] == rows[r],
{
    reveal(Seq::filter);
    let above = rows.drop_last();
    assert(rows.last() == rows[HEIGHT - 1]);
    assert forall|r: int| 0 <= r < above.len() implies !row_full(#[trigger] above[r]) by {
        assert(above[r] == rows[r]);
    }
    lemma_nothing_to_clear(above);
    assert(kept_rows(rows) == above);
    assert forall|r: int| 0 <= r < HEIGHT - 1 implies #[trigger] compacted(rows)[r + 1]
        == rows[r] by {
        assert(compacted(rows)[r + 1] == above[r]);
    }
}

/// Line clear correctness, row by row: clearing moves a row that is not
/// full down by as many rows as there are full rows below it, so that the
/// rows that stay keep their order and lie without gaps at the bottom.
pub proof fn lemma_clearing_moves_rows_down(rows: Rows, r: int)
    requires
        0 <= r < rows.len(),
        !row_full(rows[r]),
    ensures
        compacted(rows).len() == rows.len(),
        r + full_row_count(rows.skip(r + 1)) < rows.len(),
        compacted(rows)[r + full_row_count(rows.skip(r + 1))] == rows[r],
{
    let upper = rows.take(r);
    let lower = rows.skip(r + 1);
    let keep = |row: Row| !row_full(row);
    assert(rows =~= upper + (seq![rows[r]] + lower));
    Seq::filter_distributes_over_add(upper, seq![rows[r]] + lower, keep);
    lemma_kept_rows_prepend(rows[r], lower);
    upper.lemma_filter_len(keep);
    lower.lemma_filter_len(keep);
    assert(kept_rows(rows) == kept_rows(upper) + (seq![rows[r]] + kept_rows(lower)));
    assert(kept_rows(rows)[kept_rows(upper).len() as int] == rows[r]);
}

/// Line clear correctness, at the top: as many rows as were full lie
/// empty at the top after clearing.
pub proof fn lemma_clearing_empties_the_top(rows: Rows, r: int)
    requires
        0 <= r < full_row_count(rows),
    ensures
        compacted(rows)[r] == empty_row(),
{
}

/// Occupying an empty cell of a row adds one to the row's occupied cells.
pub proof fn lemma_occupy_cell_in_row(row: Row, column: int, color: Color)
    requires
        0 <= column < row.len(),
        row[column] is None,
    ensures
        filled_in_row(row.update(column, Some(color))) == filled_in_row(row) + 1,
    decreases row.len(),
{
    reveal(Seq::filter);
    let after = row.update(column, Some(color));
    if column == row.len() - 1 {
        assert(after.drop_last() =~= row.drop_last());
    } else {
        assert(after.drop_last() =~= row.drop_last().update(column, Some(color)));
        lemma_occupy_cell_in_row(row.drop_last(), column, color);
    }
}

/// Occupying an empty cell of a playfield adds one to its occupied cells.
pub proof fn lemma_occupy_cell(rows: Rows, row: int, column: int, color: Color)
    requires
        0 <= row < rows.len(),
        0 <= column < rows[row].len(),
        rows[row][column] is None,
    ensures
        filled_cells(rows.update(row, rows[row].update(column, Some(color)))) == filled_cells(rows)
            + 1,
    decreases rows.len(),
{
    let after = rows.update(row, rows[row].update(column, Some(color)));
    if row == rows.len() - 1 {
        assert(after.drop_last() =~= rows.drop_last());
        lemma_occupy_cell_in_row(rows[row], column, color);
    } else {
        assert(after.drop_last() =~= rows.drop_last().update(
            row,
            rows.drop_last()[row].update(column, Some(color)),
        ));
        lemma_occupy_cell(rows.drop_last(), row, column, color);
    }
}

} // verus!
