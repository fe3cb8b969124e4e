//! Validation of a date request, from names and text or from plain numbers.
use vstd::prelude::*;

use crate::grid::{
    day_cell, day_point, is_day, is_month, is_weekday, month_cell, month_point, weekday_cell,
    weekday_point, GridPoint,
};
use crate::names::{month_from_name, month_of_name, weekday_from_name, weekday_of_name};
use crate::variant::{rule_of, type_of_code, type_of_tag, PuzzleType, WeekdayRule};

verus! {

/// The value of a request that a name did not match.
#[derive(Clone, Copy, Debug, PartialEq, Eq, Structural)]
pub enum Field {
    Month,
    Weekday,
    PuzzleType,
}

/// Why a request was refused.
#[derive(Clone, Copy, Debug, PartialEq, Eq, Structural)]
pub enum RequestError {
    /// A month, a weekday or a layout is not one that the tables know.
    UnrecognizedName(Field),
    /// The day is not a number from 1 to 31.
    UnparsableNumber,
    /// The layout has weekday cells but no weekday was given.
    MissingRequiredMarker,
    /// A weekday was given for a layout without weekday cells.
    UnsupportedMarker,
    /// A numeric layout code outside 0 to 3.
    InvalidVariant,
}

pub open spec fn is_digit(c: char) -> bool {
    '0' <= c <= '9'
}

pub open spec fn all_digits(s: Seq<char>) -> bool {
    forall|i: int| 0 <= i < s.len() ==> is_digit(#[trigger] s[i])
}

/// The number that a string of decimal digits spells.
pub open spec fn digits_value(s: Seq<char>) -> int
    decreases s.len(),
{
    if s.len() == 0 {
        0
    } else {
        digits_value(s.drop_last()) * 10 + (s.last() as int - '0' as int)
    }
}

/// The number that `s` spells as an optional `+` and one or more decimal
/// digits, with nothing around them.
pub open spec fn number_of_text(s: Seq<char>) -> Option<int> {
    let body = if s.len() > 0 && s[0] == '+' {
        s.drop_first()
    } else {
        s
    };
    if body.len() > 0 && all_digits(body) {
        Some(digits_value(body))
    } else {
        None
    }
}

/// The day of the month that `s` spells, if it spells a number from 1 to 31.
pub open spec fn day_of_text(s: Seq<char>) -> Option<int> {
    match number_of_text(s) {
        Some(d) => if is_day(d) {
            Some(d)
        } else {
            None
        },
        None => None,
    }
}

proof fn lemma_digits_value_nonneg(s: Seq<char>)
    requires
        all_digits(s),
    ensures
        digits_value(s) >= 0,
    decreases s.len(),
{
    if s.len() > 0 {
        lemma_digits_value_nonneg(s.drop_last());
    }
}

/// Appending digits never makes the number smaller.
proof fn lemma_digits_value_prefix(s: Seq<char>, k: int)
    requires
        all_digits(s),
        0 <= k <= s.len(),
    ensures
        digits_value(s.subrange(0, k)) <= digits_value(s),
    decreases s.len() - k,
{
    if k < s.len() {
        let t = s.drop_last();
        assert(t.subrange(0, k) == s.subrange(0, k));
        lemma_digits_value_prefix(t, k);
        lemma_digits_value_nonneg(t);
    } else {
        assert(s.subrange(0, k) == s);
    }
}

/// Reads the day of the month from `s`: an optional `+` and decimal digits
/// that make a number from 1 to 31.
pub fn parse_day(s: &str) -> (r: Result<u32, RequestError>)
    ensures
        match r {
            Ok(d) => day_of_text(s@) == Some(d as int),
            Err(e) => e == RequestError::UnparsableNumber && day_of_text(s@) is None,
        },
{
    let n = s.unicode_len();
    let start: usize = if n > 0 && s.get_char(0) == '+' {
        1
    } else {
        0
    };
    let ghost body = if s@.len() > 0 && s@[0] == '+' {
        s@.drop_first()
    } else {
        s@
    };
    assert(body == s@.subrange(start as int, n as int));
    if start == n {
        return Err(RequestError::UnparsableNumber);
    }
    let mut value: u32 = 0;
    let mut i: usize = start;
    while i < n
        invariant
            n == s@.len(),
            start <= i <= n,
            body == s@.subrange(start as int, n as int),
            body == (if s@.len() > 0 && s@[0] == '+' {
                s@.drop_first()
            } else {
                s@
            }),
            all_digits(body.subrange(0, i - start)),
            value as int == digits_value(body.subrange(0, i - start)),
            value <= 31,
        decreases n - i,
    {
        let c = s.get_char(i);
        let ghost prefix = body.subrange(0, i - start);
        let ghost next = body.subrange(0, i + 1 - start);
        assert(next.drop_last() == prefix);
        assert(next.last() == c);
        if c < '0' || c > '9' {
            assert(!all_digits(body)) by {
                assert(!is_digit(body[i - start]));
            }
            assert(number_of_text(s@) is None);
            return Err(RequestError::UnparsableNumber);
        }
        value = value * 10 + (c as u32 - '0' as u32);
        assert(value as int == digits_value(next));
        assert(all_digits(next));
        if value > 31 {
            assert(day_of_text(s@) is None) by {
                if all_digits(body) {
                    lemma_digits_value_prefix(body, i + 1 - start);
                    assert(digits_value(body) > 31);
                }
            }
            return Err(RequestError::UnparsableNumber);
        }
        i = i + 1;
    }
    assert(body.subrange(0, n - start) == body);
    if value == 0 {
        return Err(RequestError::UnparsableNumber);
    }
    Ok(value)
}


/// A validated request: a date, the layout, and the solver's options.
#[derive(Clone, Copy, Debug, PartialEq, Eq)]
pub struct DateRequest {
    /// 1 for January up to 12.
    pub month: u32,
    /// The day of the month, 1 to 31.
    pub day: u32,
    /// 0 for Sunday up to 6; present exactly for a layout with weekday cells.
    pub week: Option<u32>,
    pub puzzle_type: PuzzleType,
    /// Whether pieces may be turned over.
    pub allow_flip: bool,
    /// Whether the search stops at its first solution.
    pub one_solution: bool,
}

/// The cells of the board that a date leaves uncovered.
#[derive(Clone, Copy, Debug, PartialEq, Eq)]
pub struct ResolvedMarkers {
    pub month: GridPoint,
    pub day: GridPoint,
    pub week: Option<GridPoint>,
}

pub open spec fn opt_int(w: Option<u32>) -> Option<int> {
    match w {
        Some(i) => Some(i as int),
        None => None,
    }
}

pub open spec fn opt_text(w: Option<&str>) -> Option<Seq<char>> {
    match w {
        Some(t) => Some(t@),
        None => None,
    }
}

/// The outcome of a request given as numbers: the month first, then the day,
/// then the weekday against the layout's rule.
pub open spec fn request_outcome(
    month: int,
    day: int,
    week: Option<int>,
    t: PuzzleType,
    allow_flip: bool,
    one_solution: bool,
) -> Result<DateRequest, RequestError> {
    let request = DateRequest {
        month: month as u32,
        day: day as u32,
        week: match week {
            Some(w) => Some(w as u32),
            None => None,
        },
        puzzle_type: t,
        allow_flip,
        one_solution,
    };
    if !is_month(month) {
        Err(RequestError::UnrecognizedName(Field::Month))
    } else if !is_day(day) {
        Err(RequestError::UnparsableNumber)
    } else {
        match (rule_of(t), week) {
            (WeekdayRule::Required, None) => Err(RequestError::MissingRequiredMarker),
            (WeekdayRule::Forbidden, Some(_)) => Err(RequestError::UnsupportedMarker),
            (WeekdayRule::Required, Some(w)) => if is_weekday(w) {
                Ok(request)
            } else {
                Err(RequestError::UnrecognizedName(Field::Weekday))
            },
            (WeekdayRule::Forbidden, None) => Ok(request),
        }
    }
}

/// The weekday that a request in names asks for, against the layout's rule.
pub open spec fn named_weekday(rule: WeekdayRule, week: Option<Seq<char>>) -> Result<
    Option<int>,
    RequestError,
> {
    match (rule, week) {
        (WeekdayRule::Required, None) => Err(RequestError::MissingRequiredMarker),
        (WeekdayRule::Forbidden, Some(_)) => Err(RequestError::UnsupportedMarker),
        (WeekdayRule::Forbidden, None) => Ok(None),
        (WeekdayRule::Required, Some(name)) => match weekday_of_name(name) {
            Some(w) => Ok(Some(w)),
            None => Err(RequestError::UnrecognizedName(Field::Weekday)),
        },
    }
}

/// The outcome of a request in names and text: month name, day, layout tag
/// (the default layout when there is none), then the weekday name.
pub open spec fn named_outcome(
    month: Seq<char>,
    day: Seq<char>,
    week: Option<Seq<char>>,
    tag: Option<Seq<char>>,
    allow_flip: bool,
    one_solution: bool,
) -> Result<DateRequest, RequestError> {
    let t = match tag {
        Some(g) => type_of_tag(g),
        None => Some(PuzzleType::DragonFjord),
    };
    match month_of_name(month) {
        None => Err(RequestError::UnrecognizedName(Field::Month)),
        Some(m) => match day_of_text(day) {
            None => Err(RequestError::UnparsableNumber),
            Some(d) => match t {
                None => Err(RequestError::UnrecognizedName(Field::PuzzleType)),
                Some(t) => match named_weekday(rule_of(t), week) {
                    Err(e) => Err(e),
                    Ok(w) => request_outcome(m, d, w, t, allow_flip, one_solution),
                },
            },
        },
    }
}

/// The outcome of a request in numbers with a layout code: the code first,
/// then the same checks as for a request in numbers, the weekday (if any)
/// going to the layout's rule as it was given; the search stops at its first
/// solution.
pub open spec fn coded_outcome(
    month: int,
    day: int,
    week: Option<int>,
    code: int,
    allow_flip: bool,
) -> Result<DateRequest, RequestError> {
    match type_of_code(code) {
        None => Err(RequestError::InvalidVariant),
        Some(t) => request_outcome(month, day, week, t, allow_flip, true),
    }
}

pub open spec fn opt_i32(w: Option<i32>) -> Option<int> {
    match w {
        Some(i) => Some(i as int),
        None => None,
    }
}

impl DateRequest {
    /// Month, day and weekday are in range, and a weekday is there exactly
    /// when the layout has weekday cells.
    pub open spec fn wf(&self) -> bool {
        &&& is_month(self.month as int)
        &&& is_day(self.day as int)
        &&& match self.week {
            Some(w) => is_weekday(w as int) && rule_of(self.puzzle_type) == WeekdayRule::Required,
            None => rule_of(self.puzzle_type) == WeekdayRule::Forbidden,
        }
    }

    /// Checks a request given as numbers: month 1 to 12, day 1 to 31, and a
    /// weekday 0 to 6 exactly when the layout has weekday cells.
    pub fn new(
        month: u32,
        day: u32,
        week: Option<u32>,
        puzzle_type: PuzzleType,
        allow_flip: bool,
        one_solution: bool,
    ) -> (r: Result<DateRequest, RequestError>)
        ensures
            r == request_outcome(
                month as int,
                day as int,
                opt_int(week),
                puzzle_type,
                allow_flip,
                one_solution,
            ),
            r is Ok ==> r->Ok_0.wf(),
    {
        if month < 1 || month > 12 {
            return Err(RequestError::UnrecognizedName(Field::Month));
        }
        if day < 1 || day > 31 {
            return Err(RequestError::UnparsableNumber);
        }
        match (puzzle_type.weekday_rule(), week) {
            (WeekdayRule::Required, None) => Err(RequestError::MissingRequiredMarker),
            (WeekdayRule::Forbidden, Some(_)) => Err(RequestError::UnsupportedMarker),
            (WeekdayRule::Required, Some(w)) => if w < 7 {
                Ok(DateRequest { month, day, week, puzzle_type, allow_flip, one_solution })
            } else {
                Err(RequestError::UnrecognizedName(Field::Weekday))
            },
            (WeekdayRule::Forbidden, None) => Ok(
                DateRequest { month, day, week, puzzle_type, allow_flip, one_solution },
            ),
        }
    }

    /// Checks a request given as names and text: a three-letter month name,
    /// the day as decimal text, an optional three-letter weekday name and an
    /// optional one-letter layout tag.
    pub fn from_names(
        month: &str,
        day: &str,
        week: Option<&str>,
        tag: Option<&str>,
        allow_flip: bool,
        one_solution: bool,
    ) -> (r: Result<DateRequest, RequestError>)
        ensures
            r == named_outcome(month@, day@, opt_text(week), opt_text(tag), allow_flip, one_solution),
            r is Ok ==> r->Ok_0.wf(),
    {
        let m = match month_from_name(month) {
            Some(m) => m,
            None => {
                return Err(RequestError::UnrecognizedName(Field::Month));
            },
        };
        let d = match parse_day(day) {
            Ok(d) => d,
            Err(e) => {
                return Err(e);
            },
        };
        let t = match tag {
            Some(g) => match PuzzleType::from_tag(g) {
                Some(t) => t,
                None => {
                    return Err(RequestError::UnrecognizedName(Field::PuzzleType));
                },
            },
            None => PuzzleType::DragonFjord,
        };
        let w = match (t.weekday_rule(), week) {
            (WeekdayRule::Required, None) => {
                return Err(RequestError::MissingRequiredMarker);
            },
            (WeekdayRule::Forbidden, Some(_)) => {
                return Err(RequestError::UnsupportedMarker);
            },
            (WeekdayRule::Forbidden, None) => None,
            (WeekdayRule::Required, Some(name)) => match weekday_from_name(name) {
                Some(w) => Some(w),
                None => {
                    return Err(RequestError::UnrecognizedName(Field::Weekday));
                },
            },
        };
        DateRequest::new(m, d, w, t, allow_flip, one_solution)
    }

    /// Checks a request given as numbers with a layout code: `code` picks the
    /// layout (0 to 3), then month, day and weekday are checked as by `new`,
    /// so a weekday given for a layout without weekday cells is refused and
    /// one left out for the weekday layout is missing. The search is to stop
    /// at its first solution.
    pub fn from_codes(month: i32, day: i32, week: Option<i32>, code: i32, allow_flip: bool) -> (r:
        Result<DateRequest, RequestError>)
        ensures
            r == coded_outcome(month as int, day as int, opt_i32(week), code as int, allow_flip),
            r is Ok ==> r->Ok_0.wf(),
    {
        let t = match PuzzleType::from_code(code) {
            Some(t) => t,
            None => {
                return Err(RequestError::InvalidVariant);
            },
        };
        if month < 1 || month > 12 {
            return Err(RequestError::UnrecognizedName(Field::Month));
        }
        if day < 1 || day > 31 {
            return Err(RequestError::UnparsableNumber);
        }
        let w = match week {
            None => None,
            Some(w) => {
                if w < 0 || w > 6 {
                    return match t.weekday_rule() {
                        WeekdayRule::Required => Err(RequestError::UnrecognizedName(Field::Weekday)),
                        WeekdayRule::Forbidden => Err(RequestError::UnsupportedMarker),
                    };
                }
                Some(w as u32)
            },
        };
        DateRequest::new(month as u32, day as u32, w, t, allow_flip, true)
    }

    /// The cells that this request's date leaves uncovered.
    pub fn markers(&self) -> (r: ResolvedMarkers)
        requires
            self.wf(),
        ensures
            r.month@ == month_cell(self.month as int),
            r.day@ == day_cell(self.day as int),
            match self.week {
                Some(w) => r.week is Some && r.week->Some_0@ == weekday_cell(w as int),
                None => r.week is None,
            },
            r.week is Some <==> self.puzzle_type == PuzzleType::WeekDay,
    {
        let week = match self.week {
            Some(w) => Some(weekday_point(w)),
            None => None,
        };
        ResolvedMarkers { month: month_point(self.month), day: day_point(self.day), week }
    }
}


/// A layout without weekday cells never accepts a request that gives a
/// weekday, by name or by number: the request is refused, and once its month
/// and day are valid the refusal is `UnsupportedMarker`.
pub proof fn lemma_weekday_refused_without_cells(
    month_name: Seq<char>,
    day_text: Seq<char>,
    week_name: Seq<char>,
    tag: Option<Seq<char>>,
    month: int,
    day: int,
    week: int,
    t: PuzzleType,
    allow_flip: bool,
    one_solution: bool,
)
    requires
        t != PuzzleType::WeekDay,
        match tag {
            Some(g) => type_of_tag(g) == Some(t),
            None => t == PuzzleType::DragonFjord,
        },
    ensures
        named_outcome(month_name, day_text, Some(week_name), tag, allow_flip, one_solution) is Err,
        month_of_name(month_name) is Some && day_of_text(day_text) is Some ==> named_outcome(
            month_name,
            day_text,
            Some(week_name),
            tag,
            allow_flip,
            one_solution,
        ) == Err::<DateRequest, RequestError>(RequestError::UnsupportedMarker),
        request_outcome(month, day, Some(week), t, allow_flip, one_solution) is Err,
        is_month(month) && is_day(day) ==> request_outcome(
            month,
            day,
            Some(week),
            t,
            allow_flip,
            one_solution,
        ) == Err::<DateRequest, RequestError>(RequestError::UnsupportedMarker),
{
}

/// The layout with weekday cells never accepts a request without a weekday:
/// the request is refused, and once its month and day are valid the refusal
/// is `MissingRequiredMarker`.
pub proof fn lemma_weekday_required_with_cells(
    month_name: Seq<char>,
    day_text: Seq<char>,
    tag: Seq<char>,
    month: int,
    day: int,
    allow_flip: bool,
    one_solution: bool,
)
    requires
        type_of_tag(tag) == Some(PuzzleType::WeekDay),
    ensures
        named_outcome(month_name, day_text, None, Some(tag), allow_flip, one_solution) is Err,
        month_of_name(month_name) is Some && day_of_text(day_text) is Some ==> named_outcome(
            month_name,
            day_text,
            None,
            Some(tag),
            allow_flip,
            one_solution,
        ) == Err::<DateRequest, RequestError>(RequestError::MissingRequiredMarker),
        request_outcome(month, day, None, PuzzleType::WeekDay, allow_flip, one_solution) is Err,
        is_month(month) && is_day(day) ==> request_outcome(
            month,
            day,
            None,
            PuzzleType::WeekDay,
            allow_flip,
            one_solution,
        ) == Err::<DateRequest, RequestError>(RequestError::MissingRequiredMarker),
{
}


/// Given by layout code, a request is held to the same weekday rule: a
/// weekday given with a layout without weekday cells, or left out for the
/// weekday layout, is never accepted, and once month and day are valid the
/// refusal is `UnsupportedMarker` or `MissingRequiredMarker`.
pub proof fn lemma_coded_weekday_rule(month: int, day: int, week: int, code: int, allow_flip: bool)
    requires
        type_of_code(code) is Some,
    ensures
        type_of_code(code) != Some(PuzzleType::WeekDay) ==> coded_outcome(
            month,
            day,
            Some(week),
            code,
            allow_flip,
        ) is Err,
        type_of_code(code) != Some(PuzzleType::WeekDay) && is_month(month) && is_day(day)
            ==> coded_outcome(month, day, Some(week), code, allow_flip) == Err::<
            DateRequest,
            RequestError,
        >(RequestError::UnsupportedMarker),
        type_of_code(code) == Some(PuzzleType::WeekDay) ==> coded_outcome(
            month,
            day,
            None,
            code,
            allow_flip,
        ) is Err,
        type_of_code(code) == Some(PuzzleType::WeekDay) && is_month(month) && is_day(day)
            ==> coded_outcome(month, day, None, code, allow_flip) == Err::<DateRequest, RequestError>(
            RequestError::MissingRequiredMarker,
        ),
{
}

} // verus!
