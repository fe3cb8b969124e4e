//! The board layouts and which options each of them accepts.
use vstd::prelude::*;

use crate::names::same_text;

verus! {

/// A physical layout of the puzzle board.
#[derive(Clone, Copy, Debug, PartialEq, Eq, Structural)]
pub enum PuzzleType {
    DragonFjord,
    JarringWords,
    Tetromino,
    WeekDay,
}

/// Whether a layout has cells for the days of the week.
#[derive(Clone, Copy, Debug, PartialEq, Eq, Structural)]
pub enum WeekdayRule {
    /// The layout has weekday cells: a request must name a weekday.
    Required,
    /// The layout has none: a request that names a weekday is refused.
    Forbidden,
}

/// The weekday rule of each layout.
pub open spec fn rule_of(t: PuzzleType) -> WeekdayRule {
    match t {
        PuzzleType::WeekDay => WeekdayRule::Required,
        PuzzleType::DragonFjord => WeekdayRule::Forbidden,
        PuzzleType::JarringWords => WeekdayRule::Forbidden,
        PuzzleType::Tetromino => WeekdayRule::Forbidden,
    }
}

/// The layout that a one-letter tag names: `d`, `j`, `t` or `w`.
pub open spec fn type_of_tag(tag: Seq<char>) -> Option<PuzzleType> {
    if tag == "d"@ {
        Some(PuzzleType::DragonFjord)
    } else if tag == "j"@ {
        Some(PuzzleType::JarringWords)
    } else if tag == "t"@ {
        Some(PuzzleType::Tetromino)
    } else if tag == "w"@ {
        Some(PuzzleType::WeekDay)
    } else {
        None
    }
}

/// The layout that a numeric code names: 0 to 3, in declaration order.
pub open spec fn type_of_code(code: int) -> Option<PuzzleType> {
    if code == 0 {
        Some(PuzzleType::DragonFjord)
    } else if code == 1 {
        Some(PuzzleType::JarringWords)
    } else if code == 2 {
        Some(PuzzleType::Tetromino)
    } else if code == 3 {
        Some(PuzzleType::WeekDay)
    } else {
        None
    }
}

impl Default for PuzzleType {
    /// The board that is used when none is chosen.
    fn default() -> (r: PuzzleType)
        ensures
            r == PuzzleType::DragonFjord,
    {
        PuzzleType::DragonFjord
    }
}

impl PuzzleType {
    /// The weekday rule of this layout.
    pub fn weekday_rule(self) -> (r: WeekdayRule)
        ensures
            r == rule_of(self),
    {
        match self {
            PuzzleType::WeekDay => WeekdayRule::Required,
            PuzzleType::DragonFjord => WeekdayRule::Forbidden,
            PuzzleType::JarringWords => WeekdayRule::Forbidden,
            PuzzleType::Tetromino => WeekdayRule::Forbidden,
        }
    }

    /// The layout that `tag` names (`d`, `j`, `t` or `w`), if any.
    pub fn from_tag(tag: &str) -> (r: Option<PuzzleType>)
        ensures
            r == type_of_tag(tag@),
    {
        if same_text(tag, "d") {
            Some(PuzzleType::DragonFjord)
        } else if same_text(tag, "j") {
            Some(PuzzleType::JarringWords)
        } else if same_text(tag, "t") {
            Some(PuzzleType::Tetromino)
        } else if same_text(tag, "w") {
            Some(PuzzleType::WeekDay)
        } else {
            None
        }
    }

    /// The layout that `code` names (0 to 3), if any.
    pub fn from_code(code: i32) -> (r: Option<PuzzleType>)
        ensures
            r == type_of_code(code as int),
    {
        match code {
            0 => Some(PuzzleType::DragonFjord),
            1 => Some(PuzzleType::JarringWords),
            2 => Some(PuzzleType::Tetromino),
            3 => Some(PuzzleType::WeekDay),
            _ => None,
        }
    }
}

} // verus!
