//! Where each calendar value sits on the board's grid.
use vstd::prelude::*;

verus! {

/// A cell of the board: `row` counts from the top, `col` from the left.
#[derive(Clone, Copy, Debug, PartialEq, Eq, Structural)]
pub struct GridPoint {
    pub row: i32,
    pub col: i32,
}

impl View for GridPoint {
    type V = (int, int);

    open spec fn view(&self) -> (int, int) {
        (self.row as int, self.col as int)
    }
}

/// The cell of month `month` (1 for January up to 12): the months fill two
/// rows of six.
pub open spec fn month_cell(month: int) -> (int, int) {
    let i = month - 1;
    let row = if i > 5 { 1int } else { 0int };
    (row, i - row * 6)
}

/// The cell of day `day` of the month (1 to 31): seven days to a row,
/// starting at row 2.
pub open spec fn day_cell(day: int) -> (int, int) {
    ((day - 1) / 7 + 2, (day - 1) % 7)
}

/// The cell of weekday `week` (0 for Sunday up to 6): Sunday to Wednesday in
/// columns 3 to 6 of row 6, Thursday to Saturday in columns 4 to 6 of row 7.
pub open spec fn weekday_cell(week: int) -> (int, int) {
    if week < 4 {
        (6, week + 3)
    } else {
        (7, week)
    }
}

pub open spec fn is_month(month: int) -> bool {
    1 <= month <= 12
}

pub open spec fn is_day(day: int) -> bool {
    1 <= day <= 31
}

pub open spec fn is_weekday(week: int) -> bool {
    0 <= week < 7
}

impl GridPoint {
    pub fn new(row: i32, col: i32) -> (r: GridPoint)
        ensures
            r.row == row,
            r.col == col,
    {
        GridPoint { row, col }
    }
}

/// The cell of month `month`, 1 to 12.
pub fn month_point(month: u32) -> (r: GridPoint)
    requires
        is_month(month as int),
    ensures
        r@ == month_cell(month as int),
{
    let i: u32 = month - 1;
    let row: u32 = if i > 5 { 1 } else { 0 };
    GridPoint::new(row as i32, (i - row * 6) as i32)
}

/// The cell of day `day` of the month, 1 to 31.
pub fn day_point(day: u32) -> (r: GridPoint)
    requires
        is_day(day as int),
    ensures
        r@ == day_cell(day as int),
{
    let row: u32 = (day - 1) / 7 + 2;
    let col: u32 = (day - 1) % 7;
    GridPoint::new(row as i32, col as i32)
}

/// The cell of weekday `week`, 0 (Sunday) to 6.
pub fn weekday_point(week: u32) -> (r: GridPoint)
    requires
        is_weekday(week as int),
    ensures
        r@ == weekday_cell(week as int),
{
    if week < 4 {
        GridPoint::new(6, (week + 3) as i32)
    } else {
        GridPoint::new(7, week as i32)
    }
}

/// The twelve months fill the cells of rows 0 and 1, columns 0 to 5, one
/// month to a cell: no two months share a cell and no such cell is left over.
pub proof fn lemma_month_cells_bijective()
    ensures
        forall|m: int| #[trigger] is_month(m) ==> {
            let (r, c) = month_cell(m);
            0 <= r <= 1 && 0 <= c <= 5
        },
        forall|m1: int, m2: int|
            is_month(m1) && is_month(m2) && #[trigger] month_cell(m1) == #[trigger] month_cell(m2)
                ==> m1 == m2,
        forall|r: int, c: int|
            0 <= r <= 1 && 0 <= c <= 5 ==> #[trigger] month_cell(r * 6 + c + 1) == (r, c)
                && is_month(r * 6 + c + 1),
{
}

/// The 31 days take 31 distinct cells, seven to a row from row 2: days 1 to
/// 28 fill rows 2 to 5 (every cell of them holds a day), and days 29 to 31
/// take columns 0 to 2 of row 6.
pub proof fn lemma_day_cells_bijective()
    ensures
        forall|d1: int, d2: int|
            is_day(d1) && is_day(d2) && #[trigger] day_cell(d1) == #[trigger] day_cell(d2) ==> d1
                == d2,
        forall|d: int| 1 <= d <= 28 ==> {
            let (r, c) = #[trigger] day_cell(d);
            2 <= r <= 5 && 0 <= c <= 6
        },
        forall|r: int, c: int|
            2 <= r <= 5 && 0 <= c <= 6 ==> #[trigger] day_cell((r - 2) * 7 + c + 1) == (r, c) && 1
                <= (r - 2) * 7 + c + 1 <= 28,
        forall|d: int| 29 <= d <= 31 ==> #[trigger] day_cell(d) == (6int, d - 29),
{
    assert forall|d1: int, d2: int|
        is_day(d1) && is_day(d2) && #[trigger] day_cell(d1) == #[trigger] day_cell(d2) implies d1
        == d2 by {
        assert(d1 - 1 == 7 * ((d1 - 1) / 7) + (d1 - 1) % 7);
        assert(d2 - 1 == 7 * ((d2 - 1) / 7) + (d2 - 1) % 7);
    }
    assert forall|d: int| 1 <= d <= 28 implies {
        let (r, c) = #[trigger] day_cell(d);
        2 <= r <= 5 && 0 <= c <= 6
    } by {
        assert(0 <= (d - 1) / 7 <= 3) by (nonlinear_arith)
            requires 0 <= d - 1 <= 27;
    }
    assert forall|r: int, c: int| 2 <= r <= 5 && 0 <= c <= 6 implies #[trigger] day_cell(
        (r - 2) * 7 + c + 1,
    ) == (r, c) && 1 <= (r - 2) * 7 + c + 1 <= 28 by {
        let d = (r - 2) * 7 + c + 1;
        assert((d - 1) / 7 == r - 2 && (d - 1) % 7 == c) by (nonlinear_arith)
            requires d - 1 == (r - 2) * 7 + c, 0 <= c < 7, 0 <= r - 2;
    }
}

/// The seven weekdays take seven distinct cells: Sunday to Wednesday in row
/// 6, columns 3 to 6, and Thursday to Saturday in row 7, columns 4 to 6.
pub proof fn lemma_weekday_cells_bijective()
    ensures
        forall|w: int| #[trigger] is_weekday(w) ==> {
            let (r, c) = weekday_cell(w);
            (r == 6 && 3 <= c <= 6) || (r == 7 && 4 <= c <= 6)
        },
        forall|w1: int, w2: int|
            is_weekday(w1) && is_weekday(w2) && #[trigger] weekday_cell(w1) == #[trigger] weekday_cell(w2)
                ==> w1 == w2,
        forall|c: int| 3 <= c <= 6 ==> #[trigger] weekday_cell(c - 3) == (6int, c) && is_weekday(c - 3),
        forall|c: int| 4 <= c <= 6 ==> #[trigger] weekday_cell(c) == (7int, c) && is_weekday(c),
{
}

} // verus!
