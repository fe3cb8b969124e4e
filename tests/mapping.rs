use puzzle_calendar::grid::{day_point, month_point, weekday_point, GridPoint};
use puzzle_calendar::names::{month_from_name, month_name, weekday_from_name, weekday_name};

fn months() -> Vec<&'static str> {
    vec!["Jan", "Feb", "Mar", "Apr", "May", "Jun", "Jul", "Aug", "Sep", "Oct", "Nov", "Dec"]
}

fn weekdays() -> Vec<&'static str> {
    vec!["Sun", "Mon", "Tue", "Wed", "Thu", "Fri", "Sat"]
}

#[test]
fn month_names_fill_two_rows_of_six() {
    let mut seen: Vec<GridPoint> = Vec::new();
    for (i, name) in months().iter().enumerate() {
        let m = month_from_name(name).unwrap();
        assert_eq!(m as usize, i + 1);
        assert_eq!(month_name(m), *name);
        let p = month_point(m);
        assert!(p.row == 0 || p.row == 1);
        assert!(p.col >= 0 && p.col <= 5);
        assert!(!seen.contains(&p));
        seen.push(p);
    }
    for row in 0..2 {
        for col in 0..6 {
            assert!(seen.contains(&GridPoint::new(row, col)));
        }
    }
    assert_eq!(month_point(1), GridPoint::new(0, 0));
    assert_eq!(month_point(6), GridPoint::new(0, 5));
    assert_eq!(month_point(7), GridPoint::new(1, 0));
    assert_eq!(month_point(12), GridPoint::new(1, 5));
}

#[test]
fn month_names_are_exact_and_case_sensitive() {
    assert_eq!(month_from_name("jan"), None);
    assert_eq!(month_from_name("JAN"), None);
    assert_eq!(month_from_name("January"), None);
    assert_eq!(month_from_name("Ja"), None);
    assert_eq!(month_from_name(""), None);
    assert_eq!(month_from_name("Sep"), Some(9));
}

#[test]
fn days_follow_the_seven_column_formula() {
    let mut seen: Vec<GridPoint> = Vec::new();
    for day in 1u32..=31 {
        let p = day_point(day);
        assert_eq!(p.row, ((day - 1) / 7 + 2) as i32);
        assert_eq!(p.col, ((day - 1) % 7) as i32);
        assert!(!seen.contains(&p));
        seen.push(p);
    }
    for row in 2..6 {
        for col in 0..7 {
            assert!(seen.contains(&GridPoint::new(row, col)));
        }
    }
    assert_eq!(day_point(1), GridPoint::new(2, 0));
    assert_eq!(day_point(7), GridPoint::new(2, 6));
    assert_eq!(day_point(8), GridPoint::new(3, 0));
    assert_eq!(day_point(28), GridPoint::new(5, 6));
}

#[test]
fn last_days_take_the_start_of_row_six() {
    assert_eq!(day_point(29), GridPoint::new(6, 0));
    assert_eq!(day_point(30), GridPoint::new(6, 1));
    assert_eq!(day_point(31), GridPoint::new(6, 2));
}

#[test]
fn weekdays_take_seven_distinct_cells() {
    let mut seen: Vec<GridPoint> = Vec::new();
    for (i, name) in weekdays().iter().enumerate() {
        let w = weekday_from_name(name).unwrap();
        assert_eq!(w as usize, i);
        assert_eq!(weekday_name(w), *name);
        let p = weekday_point(w);
        if w < 4 {
            assert_eq!(p, GridPoint::new(6, w as i32 + 3));
        } else {
            assert_eq!(p, GridPoint::new(7, w as i32));
        }
        assert!(!seen.contains(&p));
        for day in 1u32..=31 {
            assert_ne!(day_point(day), p);
        }
        seen.push(p);
    }
    assert_eq!(weekday_point(0), GridPoint::new(6, 3));
    assert_eq!(weekday_point(3), GridPoint::new(6, 6));
    assert_eq!(weekday_point(4), GridPoint::new(7, 4));
    assert_eq!(weekday_point(6), GridPoint::new(7, 6));
    assert_eq!(weekday_from_name("mon"), None);
    assert_eq!(weekday_from_name("Monday"), None);
}
