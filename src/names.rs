//! The three-letter month and weekday names, and their lookup.
use vstd::prelude::*;

use crate::grid::{
    is_month, is_weekday, lemma_month_cells_bijective, lemma_weekday_cells_bijective, month_cell,
    weekday_cell,
};

verus! {

/// The month names, January first.
pub open spec fn month_names() -> Seq<Seq<char>> {
    seq![
        "Jan"@, "Feb"@, "Mar"@, "Apr"@, "May"@, "Jun"@,
        "Jul"@, "Aug"@, "Sep"@, "Oct"@, "Nov"@, "Dec"@,
    ]
}

/// The weekday names, Sunday first.
pub open spec fn weekday_names() -> Seq<Seq<char>> {
    seq!["Sun"@, "Mon"@, "Tue"@, "Wed"@, "Thu"@, "Fri"@, "Sat"@]
}

/// Whether `name` is one of the names of `table`.
pub open spec fn names_hold(table: Seq<Seq<char>>, name: Seq<char>) -> bool {
    exists|i: int| 0 <= i < table.len() && table[i] == name
}

/// The position of `name` in `table`, if it is there.
pub open spec fn position_of(table: Seq<Seq<char>>, name: Seq<char>) -> Option<int> {
    if names_hold(table, name) {
        Some(choose|i: int| 0 <= i < table.len() && table[i] == name)
    } else {
        None
    }
}

/// The month (1 for January up to 12) that `name` names, if any.
pub open spec fn month_of_name(name: Seq<char>) -> Option<int> {
    match position_of(month_names(), name) {
        Some(i) => Some(i + 1),
        None => None,
    }
}

/// The weekday (0 for Sunday up to 6) that `name` names, if any.
pub open spec fn weekday_of_name(name: Seq<char>) -> Option<int> {
    position_of(weekday_names(), name)
}

pub open spec fn all_distinct(table: Seq<Seq<char>>) -> bool {
    forall|i: int, j: int|
        0 <= i < table.len() && 0 <= j < table.len() && i != j ==> #[trigger] table[i]
            != #[trigger] table[j]
}

/// No name stands twice in either table.
pub proof fn lemma_names_distinct()
    ensures
        month_names().len() == 12,
        weekday_names().len() == 7,
        all_distinct(month_names()),
        all_distinct(weekday_names()),
{
    reveal_strlit("Jan");
    reveal_strlit("Feb");
    reveal_strlit("Mar");
    reveal_strlit("Apr");
    reveal_strlit("May");
    reveal_strlit("Jun");
    reveal_strlit("Jul");
    reveal_strlit("Aug");
    reveal_strlit("Sep");
    reveal_strlit("Oct");
    reveal_strlit("Nov");
    reveal_strlit("Dec");
    reveal_strlit("Sun");
    reveal_strlit("Mon");
    reveal_strlit("Tue");
    reveal_strlit("Wed");
    reveal_strlit("Thu");
    reveal_strlit("Fri");
    reveal_strlit("Sat");
    let ms = month_names();
    let ws = weekday_names();
    assert forall|i: int, j: int| 0 <= i < ms.len() && 0 <= j < ms.len() && i != j implies #[trigger] ms[i]
        != #[trigger] ms[j] by {
        assert(ms[i][0] != ms[j][0] || ms[i][1] != ms[j][1] || ms[i][2] != ms[j][2]);
    }
    assert forall|i: int, j: int| 0 <= i < ws.len() && 0 <= j < ws.len() && i != j implies #[trigger] ws[i]
        != #[trigger] ws[j] by {
        assert(ws[i][0] != ws[j][0] || ws[i][1] != ws[j][1]);
    }
}

/// In a table without repeats, the position of each of its names is where it
/// stands.
pub proof fn lemma_position_of_entry(table: Seq<Seq<char>>, i: int)
    requires
        all_distinct(table),
        0 <= i < table.len(),
    ensures
        position_of(table, table[i]) == Some(i),
{
    assert(names_hold(table, table[i]));
}

/// Each name of the month table names its own month, each name of the
/// weekday table its own weekday.
pub proof fn lemma_names_round_trip()
    ensures
        forall|i: int| 0 <= i < 12 ==> #[trigger] month_of_name(month_names()[i]) == Some(i + 1),
        forall|i: int| 0 <= i < 7 ==> #[trigger] weekday_of_name(weekday_names()[i]) == Some(i),
{
    lemma_names_distinct();
    assert forall|i: int| 0 <= i < 12 implies #[trigger] month_of_name(month_names()[i]) == Some(
        i + 1,
    ) by {
        lemma_position_of_entry(month_names(), i);
    }
    assert forall|i: int| 0 <= i < 7 implies #[trigger] weekday_of_name(weekday_names()[i]) == Some(
        i,
    ) by {
        lemma_position_of_entry(weekday_names(), i);
    }
}

/// Whether two strings hold the same characters.
pub fn same_text(a: &str, b: &str) -> (r: bool)
    ensures
        r == (a@ == b@),
{
    let n = a.unicode_len();
    if n != b.unicode_len() {
        return false;
    }
    let mut i: usize = 0;
    while i < n
        invariant
            n == a@.len(),
            n == b@.len(),
            0 <= i <= n,
            a@.subrange(0, i as int) == b@.subrange(0, i as int),
        decreases n - i,
    {
        if a.get_char(i) != b.get_char(i) {
            return false;
        }
        assert(a@.subrange(0, i + 1) == a@.subrange(0, i as int).push(a@[i as int]));
        assert(b@.subrange(0, i + 1) == b@.subrange(0, i as int).push(b@[i as int]));
        i = i + 1;
    }
    assert(a@ == a@.subrange(0, n as int));
    assert(b@ == b@.subrange(0, n as int));
    true
}

/// The name of month `month`, 1 to 12.
pub fn month_name(month: u32) -> (r: &'static str)
    requires
        1 <= month <= 12,
    ensures
        r@ == month_names()[month - 1],
{
    match month {
        1 => "Jan",
        2 => "Feb",
        3 => "Mar",
        4 => "Apr",
        5 => "May",
        6 => "Jun",
        7 => "Jul",
        8 => "Aug",
        9 => "Sep",
        10 => "Oct",
        11 => "Nov",
        _ => "Dec",
    }
}

/// The name of weekday `week`, 0 (Sunday) to 6.
pub fn weekday_name(week: u32) -> (r: &'static str)
    requires
        week < 7,
    ensures
        r@ == weekday_names()[week as int],
{
    match week {
        0 => "Sun",
        1 => "Mon",
        2 => "Tue",
        3 => "Wed",
        4 => "Thu",
        5 => "Fri",
        _ => "Sat",
    }
}

/// The month (1 to 12) that `name` names; the match is exact and
/// case-sensitive.
pub fn month_from_name(name: &str) -> (r: Option<u32>)
    ensures
        match r {
            Some(m) => month_of_name(name@) == Some(m as int),
            None => month_of_name(name@) is None,
        },
{
    let mut m: u32 = 1;
    while m <= 12
        invariant
            1 <= m <= 13,
            forall|j: int| 0 <= j < m - 1 ==> month_names()[j] != name@,
        decreases 13 - m,
    {
        if same_text(month_name(m), name) {
            proof {
                lemma_names_round_trip();
            }
            assert(month_of_name(month_names()[m - 1]) == Some(m as int));
            return Some(m);
        }
        m = m + 1;
    }
    assert(!names_hold(month_names(), name@));
    None
}

/// The weekday (0 for Sunday to 6) that `name` names; the match is exact and
/// case-sensitive.
pub fn weekday_from_name(name: &str) -> (r: Option<u32>)
    ensures
        match r {
            Some(w) => weekday_of_name(name@) == Some(w as int),
            None => weekday_of_name(name@) is None,
        },
{
    let mut w: u32 = 0;
    while w < 7
        invariant
            0 <= w <= 7,
            forall|j: int| 0 <= j < w ==> weekday_names()[j] != name@,
        decreases 7 - w,
    {
        if same_text(weekday_name(w), name) {
            proof {
                lemma_names_round_trip();
            }
            assert(weekday_of_name(weekday_names()[w as int]) == Some(w as int));
            return Some(w);
        }
        w = w + 1;
    }
    assert(!names_hold(weekday_names(), name@));
    None
}


/// A month that a name names is in range, and that name is the table's
/// entry for it.
proof fn lemma_month_of_name_entry(name: Seq<char>)
    requires
        month_of_name(name) is Some,
    ensures
        is_month(month_of_name(name)->Some_0),
        month_names()[month_of_name(name)->Some_0 - 1] == name,
{
}

/// Each of the twelve month names lands in rows 0 and 1, columns 0 to 5, and
/// two month names share a cell only when they are the same name.
pub proof fn lemma_month_names_cells(name1: Seq<char>, name2: Seq<char>)
    requires
        month_of_name(name1) is Some,
        month_of_name(name2) is Some,
    ensures
        ({
            let (r, c) = month_cell(month_of_name(name1)->Some_0);
            0 <= r <= 1 && 0 <= c <= 5
        }),
        month_cell(month_of_name(name1)->Some_0) == month_cell(month_of_name(name2)->Some_0)
            ==> name1 == name2,
{
    lemma_month_of_name_entry(name1);
    lemma_month_of_name_entry(name2);
    lemma_month_cells_bijective();
}

/// Each of the seven weekday names lands in row 6, columns 3 to 6, or row 7,
/// columns 4 to 6, and two weekday names share a cell only when they are the
/// same name.
pub proof fn lemma_weekday_names_cells(name1: Seq<char>, name2: Seq<char>)
    requires
        weekday_of_name(name1) is Some,
        weekday_of_name(name2) is Some,
    ensures
        ({
            let (r, c) = weekday_cell(weekday_of_name(name1)->Some_0);
            (r == 6 && 3 <= c <= 6) || (r == 7 && 4 <= c <= 6)
        }),
        weekday_cell(weekday_of_name(name1)->Some_0) == weekday_cell(
            weekday_of_name(name2)->Some_0,
        ) ==> name1 == name2,
{
    let w1 = weekday_of_name(name1)->Some_0;
    let w2 = weekday_of_name(name2)->Some_0;
    assert(is_weekday(w1) && weekday_names()[w1] == name1);
    assert(is_weekday(w2) && weekday_names()[w2] == name2);
    lemma_weekday_cells_bijective();
}

} // verus!
