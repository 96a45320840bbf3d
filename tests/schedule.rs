use timemaster::{normalize_schedule, DbError};

fn s(v: &str) -> String {
    v.to_string()
}

#[test]
fn long_term_with_one_date_is_refused() {
    let r = normalize_schedule("long_term", None, Some(vec![s("2024-01-01")]));
    assert!(matches!(r, Err(DbError::InvalidInput(_))));
}

#[test]
fn long_term_without_dates_is_refused() {
    let r = normalize_schedule("long_term", Some(s("daily")), None);
    assert!(matches!(r, Err(DbError::InvalidInput(_))));
}

#[test]
fn long_term_with_three_dates_is_refused() {
    let r = normalize_schedule(
        "long_term",
        None,
        Some(vec![s("2024-01-01"), s("2024-01-15"), s("2024-01-31")]),
    );
    assert!(matches!(r, Err(DbError::InvalidInput(_))));
}

#[test]
fn long_term_takes_both_dates() {
    let r = normalize_schedule(
        "long_term",
        Some(s("weekly")),
        Some(vec![s("2024-01-01"), s("2024-01-31")]),
    )
    .unwrap();
    assert_eq!(r, (None, Some(s("2024-01-01")), Some(s("2024-01-31"))));
}

#[test]
fn cycle_keeps_its_rule() {
    let r = normalize_schedule("cycle", Some(s("weekly")), Some(vec![s("2024-01-01")])).unwrap();
    assert_eq!(r, (Some(s("weekly")), None, None));
}

#[test]
fn cycle_drops_an_empty_rule() {
    let r = normalize_schedule("cycle", Some(s("")), None).unwrap();
    assert_eq!(r, (None, None, None));
}

#[test]
fn cycle_without_rule() {
    let r = normalize_schedule("cycle", None, None).unwrap();
    assert_eq!(r, (None, None, None));
}

#[test]
fn simple_keeps_nothing() {
    let r = normalize_schedule(
        "simple",
        Some(s("daily")),
        Some(vec![s("2024-01-01"), s("2024-01-31")]),
    )
    .unwrap();
    assert_eq!(r, (None, None, None));
}

#[test]
fn unknown_type_is_simple() {
    let r = normalize_schedule("habit", Some(s("daily")), None).unwrap();
    assert_eq!(r, (None, None, None));
}

#[test]
fn long_term_arity_message() {
    match normalize_schedule("long_term", None, Some(vec![s("2024-01-01")])) {
        Err(DbError::InvalidInput(m)) => {
            assert_eq!(m, "long term task requires start and end date")
        }
        _ => panic!("expected invalid input"),
    }
}
