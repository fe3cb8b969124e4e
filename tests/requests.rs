use puzzle_calendar::grid::GridPoint;
use puzzle_calendar::report::cli_report;
use puzzle_calendar::request::{parse_day, DateRequest, Field, RequestError};
use puzzle_calendar::variant::{PuzzleType, WeekdayRule};

fn forbidding_types() -> Vec<(&'static str, PuzzleType)> {
    vec![
        ("d", PuzzleType::DragonFjord),
        ("j", PuzzleType::JarringWords),
        ("t", PuzzleType::Tetromino),
    ]
}

#[test]
fn default_january_first_resolves_to_corner_cells() {
    let q = DateRequest::from_names("Jan", "1", None, None, false, false).unwrap();
    assert_eq!(q.month, 1);
    assert_eq!(q.day, 1);
    assert_eq!(q.week, None);
    assert_eq!(q.puzzle_type, PuzzleType::DragonFjord);
    assert!(!q.allow_flip);
    assert!(!q.one_solution);
    let m = q.markers();
    assert_eq!(m.month, GridPoint::new(0, 0));
    assert_eq!(m.day, GridPoint::new(2, 0));
    assert_eq!(m.week, None);
    let no_boards: Vec<String> = Vec::new();
    assert_eq!(cli_report(&no_boards), "Solution not found\n");
}

#[test]
fn weekday_on_default_layout_is_unsupported() {
    let r = DateRequest::from_names("Jan", "1", Some("Mon"), None, false, false);
    assert_eq!(r, Err(RequestError::UnsupportedMarker));
}

#[test]
fn weekday_is_refused_by_every_layout_without_weekday_cells() {
    for (tag, t) in forbidding_types() {
        assert_eq!(t.weekday_rule(), WeekdayRule::Forbidden);
        for week in ["Sun", "Sat", "xyz", ""] {
            let r = DateRequest::from_names("Mar", "15", Some(week), Some(tag), true, true);
            assert_eq!(r, Err(RequestError::UnsupportedMarker));
        }
        for week in [0u32, 6, 7] {
            assert_eq!(
                DateRequest::new(3, 15, Some(week), t, false, false),
                Err(RequestError::UnsupportedMarker)
            );
        }
        let ok = DateRequest::from_names("Mar", "15", None, Some(tag), true, true).unwrap();
        assert_eq!(ok.puzzle_type, t);
        assert_eq!(ok.markers().week, None);
    }
}

#[test]
fn weekday_layout_requires_a_weekday() {
    assert_eq!(PuzzleType::WeekDay.weekday_rule(), WeekdayRule::Required);
    assert_eq!(
        DateRequest::from_names("Dec", "31", None, Some("w"), false, false),
        Err(RequestError::MissingRequiredMarker)
    );
    assert_eq!(
        DateRequest::new(12, 31, None, PuzzleType::WeekDay, false, false),
        Err(RequestError::MissingRequiredMarker)
    );
}

#[test]
fn weekday_layout_places_the_weekday() {
    let q = DateRequest::from_names("Dec", "31", Some("Thu"), Some("w"), true, false).unwrap();
    assert_eq!(q.week, Some(4));
    assert!(q.allow_flip);
    let m = q.markers();
    assert_eq!(m.month, GridPoint::new(1, 5));
    assert_eq!(m.day, GridPoint::new(6, 2));
    assert_eq!(m.week, Some(GridPoint::new(7, 4)));
    let q = DateRequest::from_names("Jul", "4", Some("Wed"), Some("w"), false, true).unwrap();
    assert_eq!(q.markers().week, Some(GridPoint::new(6, 6)));
}

#[test]
fn unknown_names_are_reported_by_field() {
    assert_eq!(
        DateRequest::from_names("jan", "1", None, None, false, false),
        Err(RequestError::UnrecognizedName(Field::Month))
    );
    assert_eq!(
        DateRequest::from_names("Jan", "1", Some("Mun"), Some("w"), false, false),
        Err(RequestError::UnrecognizedName(Field::Weekday))
    );
    assert_eq!(
        DateRequest::from_names("Jan", "1", None, Some("x"), false, false),
        Err(RequestError::UnrecognizedName(Field::PuzzleType))
    );
    assert_eq!(
        DateRequest::from_names("Jan", "1", None, Some("D"), false, false),
        Err(RequestError::UnrecognizedName(Field::PuzzleType))
    );
    assert_eq!(PuzzleType::from_tag("dd"), None);
    assert_eq!(PuzzleType::from_tag("t"), Some(PuzzleType::Tetromino));
}

#[test]
fn checks_run_month_then_day_then_layout_then_weekday() {
    assert_eq!(
        DateRequest::from_names("Foo", "99", Some("Mon"), Some("x"), false, false),
        Err(RequestError::UnrecognizedName(Field::Month))
    );
    assert_eq!(
        DateRequest::from_names("Jan", "99", Some("Mon"), Some("x"), false, false),
        Err(RequestError::UnparsableNumber)
    );
    assert_eq!(
        DateRequest::from_names("Jan", "9", Some("Mon"), Some("x"), false, false),
        Err(RequestError::UnrecognizedName(Field::PuzzleType))
    );
}

#[test]
fn day_text_must_be_a_number_from_one_to_thirty_one() {
    assert_eq!(parse_day("1"), Ok(1));
    assert_eq!(parse_day("31"), Ok(31));
    assert_eq!(parse_day("07"), Ok(7));
    assert_eq!(parse_day("+5"), Ok(5));
    for bad in ["", "+", "0", "32", "100", "-1", " 1", "1 ", "1a", "abc", "4294967296", "++1"] {
        assert_eq!(parse_day(bad), Err(RequestError::UnparsableNumber), "{bad:?}");
    }
    assert_eq!(
        DateRequest::from_names("Feb", "31", None, None, false, false).map(|q| q.day),
        Ok(31)
    );
}

#[test]
fn numeric_checks_cover_each_range() {
    assert_eq!(
        DateRequest::new(0, 1, None, PuzzleType::DragonFjord, false, false),
        Err(RequestError::UnrecognizedName(Field::Month))
    );
    assert_eq!(
        DateRequest::new(13, 1, None, PuzzleType::DragonFjord, false, false),
        Err(RequestError::UnrecognizedName(Field::Month))
    );
    assert_eq!(
        DateRequest::new(1, 0, None, PuzzleType::DragonFjord, false, false),
        Err(RequestError::UnparsableNumber)
    );
    assert_eq!(
        DateRequest::new(1, 32, None, PuzzleType::DragonFjord, false, false),
        Err(RequestError::UnparsableNumber)
    );
    assert_eq!(
        DateRequest::new(1, 1, Some(7), PuzzleType::WeekDay, false, false),
        Err(RequestError::UnrecognizedName(Field::Weekday))
    );
}

#[test]
fn out_of_range_layout_code_is_refused() {
    assert_eq!(DateRequest::from_codes(1, 1, None, 4, false), Err(RequestError::InvalidVariant));
    assert_eq!(DateRequest::from_codes(1, 1, Some(0), 4, false), Err(RequestError::InvalidVariant));
    assert_eq!(DateRequest::from_codes(1, 1, None, -1, false), Err(RequestError::InvalidVariant));
    assert_eq!(PuzzleType::from_code(4), None);
}

#[test]
fn layout_codes_follow_declaration_order() {
    assert_eq!(PuzzleType::from_code(0), Some(PuzzleType::DragonFjord));
    assert_eq!(PuzzleType::from_code(1), Some(PuzzleType::JarringWords));
    assert_eq!(PuzzleType::from_code(2), Some(PuzzleType::Tetromino));
    assert_eq!(PuzzleType::from_code(3), Some(PuzzleType::WeekDay));
    assert_eq!(PuzzleType::default(), PuzzleType::DragonFjord);
}

#[test]
fn coded_request_on_default_layout_refuses_a_weekday() {
    assert_eq!(
        DateRequest::from_codes(1, 1, Some(1), 0, false),
        Err(RequestError::UnsupportedMarker)
    );
    let q = DateRequest::from_codes(1, 1, None, 0, false).unwrap();
    let m = q.markers();
    assert_eq!(m.month, GridPoint::new(0, 0));
    assert_eq!(m.day, GridPoint::new(2, 0));
    assert_eq!(m.week, None);
}

#[test]
fn coded_request_holds_the_weekday_rule() {
    for code in 0..3 {
        for week in [0, 6, 7, 99, -1] {
            assert_eq!(
                DateRequest::from_codes(8, 15, Some(week), code, true),
                Err(RequestError::UnsupportedMarker)
            );
        }
    }
    let q = DateRequest::from_codes(8, 15, None, 1, true).unwrap();
    assert_eq!(q.puzzle_type, PuzzleType::JarringWords);
    assert_eq!(q.week, None);
    assert!(q.one_solution);
    assert!(q.allow_flip);
    let m = q.markers();
    assert_eq!(m.month, GridPoint::new(1, 1));
    assert_eq!(m.day, GridPoint::new(4, 0));
    let q = DateRequest::from_codes(8, 15, Some(5), 3, false).unwrap();
    assert_eq!(q.week, Some(5));
    assert_eq!(q.markers().week, Some(GridPoint::new(7, 5)));
    assert_eq!(
        DateRequest::from_codes(8, 15, None, 3, false),
        Err(RequestError::MissingRequiredMarker)
    );
    assert_eq!(
        DateRequest::from_codes(8, 15, Some(-1), 3, false),
        Err(RequestError::UnrecognizedName(Field::Weekday))
    );
    assert_eq!(
        DateRequest::from_codes(8, 15, Some(7), 3, false),
        Err(RequestError::UnrecognizedName(Field::Weekday))
    );
    assert_eq!(
        DateRequest::from_codes(-3, 15, None, 0, false),
        Err(RequestError::UnrecognizedName(Field::Month))
    );
    assert_eq!(
        DateRequest::from_codes(2, 40, None, 0, false),
        Err(RequestError::UnparsableNumber)
    );
}
