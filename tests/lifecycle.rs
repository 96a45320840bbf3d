use timemaster::{DbError, DockSide, NewTask, Task, TaskStatus, TaskType, UpdateTask};

fn s(v: &str) -> String {
    v.to_string()
}

fn new_task(kind: &str, target: Option<i64>) -> NewTask {
    NewTask {
        id: Some(s("t1")),
        name: s("  Read book "),
        description: None,
        task_type: s(kind),
        target,
        repeat: Some(s("daily")),
        date_range: Some(vec![s("2024-01-01"), s("2024-01-31")]),
    }
}

fn fresh(kind: &str, target: i64) -> Task {
    Task::from_new(new_task(kind, Some(target)), s("t1"), s("t0")).unwrap()
}

fn edit(kind: &str, target: Option<i64>) -> UpdateTask {
    UpdateTask {
        id: s("t1"),
        name: s(" Renamed\t"),
        description: Some(s("  notes  ")),
        task_type: s(kind),
        target,
        repeat: None,
        date_range: Some(vec![s("2024-02-01"), s("2024-02-29")]),
    }
}

#[test]
fn created_task_is_fresh_and_trimmed() {
    let t = fresh("cycle", 5);
    assert_eq!(t.id, "t1");
    assert_eq!(t.name, "Read book");
    assert_eq!(t.description, "");
    assert_eq!(t.task_type, TaskType::Cycle);
    assert_eq!(t.progress, 0);
    assert_eq!(t.target, 5);
    assert_eq!(t.status, TaskStatus::Active);
    assert_eq!(t.repeat_rule, Some(s("daily")));
    assert_eq!(t.start_date, None);
    assert_eq!(t.created_at, "t0");
    assert_eq!(t.updated_at, "t0");
}

#[test]
fn target_is_clamped_to_one() {
    assert_eq!(fresh("simple", 0).target, 1);
    assert_eq!(fresh("simple", -4).target, 1);
    let t = Task::from_new(new_task("simple", None), s("t1"), s("t0")).unwrap();
    assert_eq!(t.target, 1);
    assert_eq!(t.progress, 0);
    assert_eq!(t.status, TaskStatus::Active);
}

#[test]
fn created_long_term_takes_dates() {
    let t = fresh("long_term", 3);
    assert_eq!(t.task_type, TaskType::LongTerm);
    assert_eq!(t.repeat_rule, None);
    assert_eq!(t.start_date, Some(s("2024-01-01")));
    assert_eq!(t.end_date, Some(s("2024-01-31")));
}

#[test]
fn creating_long_term_without_dates_fails() {
    let mut p = new_task("long_term", Some(2));
    p.date_range = None;
    let r = Task::from_new(p, s("t1"), s("t0"));
    assert!(matches!(r, Err(DbError::InvalidInput(_))));
}

#[test]
fn increment_stops_at_target_and_completes() {
    let mut t = fresh("simple", 2);
    t = t.incremented(s("t1")).unwrap();
    assert_eq!((t.progress, t.status), (1, TaskStatus::Active));
    t = t.incremented(s("t2")).unwrap();
    assert_eq!((t.progress, t.status), (2, TaskStatus::Completed));
    t = t.incremented(s("t3")).unwrap();
    assert_eq!((t.progress, t.status), (2, TaskStatus::Completed));
    assert_eq!(t.updated_at, "t3");
}

#[test]
fn increment_on_archived_fails() {
    let t = fresh("simple", 2).with_status(TaskStatus::Archived, s("t1"));
    let r = t.incremented(s("t2"));
    assert!(matches!(r, Err(DbError::InvalidInput(_))));
}

#[test]
fn archive_keeps_progress() {
    let t = fresh("simple", 3).incremented(s("t1")).unwrap();
    let a = t.with_status(TaskStatus::Archived, s("t2"));
    assert_eq!(a.status, TaskStatus::Archived);
    assert_eq!(a.progress, 1);
    assert_eq!(a.updated_at, "t2");
}

#[test]
fn reset_sets_progress_to_zero() {
    let t = fresh("cycle", 3).incremented(s("t1")).unwrap();
    let r = t.progress_reset(s("t2"));
    assert_eq!(r.progress, 0);
    assert_eq!(r.status, TaskStatus::Active);
}

#[test]
fn edit_of_archived_stays_archived() {
    let t = fresh("simple", 3)
        .incremented(s("t1"))
        .unwrap()
        .with_status(TaskStatus::Archived, s("t2"));
    let e = t.edited(edit("simple", Some(1)), s("t3")).unwrap();
    assert_eq!(e.status, TaskStatus::Archived);
    assert_eq!(e.progress, 1);
    assert_eq!(e.target, 1);
}

#[test]
fn edit_recomputes_status_and_clamps_progress() {
    let t = fresh("simple", 3).incremented(s("t1")).unwrap().incremented(s("t2")).unwrap();
    let e = t.edited(edit("long_term", Some(1)), s("t3")).unwrap();
    assert_eq!(e.progress, 1);
    assert_eq!(e.target, 1);
    assert_eq!(e.status, TaskStatus::Completed);
    assert_eq!(e.name, "Renamed");
    assert_eq!(e.description, "notes");
    assert_eq!(e.task_type, TaskType::LongTerm);
    assert_eq!(e.start_date, Some(s("2024-02-01")));
    assert_eq!(e.end_date, Some(s("2024-02-29")));
    assert_eq!(e.created_at, "t0");
    assert_eq!(e.updated_at, "t3");
    let back = e.edited(edit("simple", Some(4)), s("t4")).unwrap();
    assert_eq!(back.status, TaskStatus::Active);
    assert_eq!(back.progress, 1);
}

#[test]
fn edit_without_target_keeps_it() {
    let t = fresh("simple", 3);
    let e = t.edited(edit("simple", None), s("t1")).unwrap();
    assert_eq!(e.target, 3);
    assert_eq!(e.start_date, None);
}

#[test]
fn edit_to_long_term_without_dates_fails() {
    let mut u = edit("long_term", Some(2));
    u.date_range = Some(vec![s("2024-02-01")]);
    let r = fresh("simple", 3).edited(u, s("t1"));
    assert!(matches!(r, Err(DbError::InvalidInput(_))));
}

#[test]
fn names_round_trip() {
    assert_eq!(TaskType::parse("cycle"), TaskType::Cycle);
    assert_eq!(TaskType::parse("long_term"), TaskType::LongTerm);
    assert_eq!(TaskType::parse("simple"), TaskType::Simple);
    assert_eq!(TaskType::parse("other"), TaskType::Simple);
    assert_eq!(TaskType::LongTerm.as_str(), "long_term");
    assert_eq!(TaskStatus::parse("archived"), Some(TaskStatus::Archived));
    assert_eq!(TaskStatus::parse("done"), None);
    assert_eq!(TaskStatus::Completed.as_str(), "completed");
}

#[test]
fn row_with_unknown_status_is_refused() {
    let row = (
        s("a"), s("n"), s(""), s("simple"), 0, 1, None, None, None,
        s("paused"), s("t0"), s("t0"),
    );
    assert!(matches!(Task::from_row(row), Err(DbError::InvalidInput(_))));
    let ok = (
        s("a"), s("n"), s(""), s("cycle"), 0, 1, Some(s("daily")), None, None,
        s("active"), s("t0"), s("t0"),
    );
    let t = Task::from_row(ok).unwrap();
    assert_eq!(t.task_type, TaskType::Cycle);
    assert_eq!(t.status, TaskStatus::Active);
}

#[test]
fn dock_sides_have_names() {
    assert_eq!(DockSide::Left.as_str(), "left");
    assert_eq!(DockSide::Right.as_str(), "right");
}

fn row(id: &str, status: &str) -> timemaster::TaskRow {
    (
        s(id), s("n"), s(""), s("simple"), 0, 1, None, None, None,
        s(status), s("t0"), s("t0"),
    )
}

#[test]
fn rows_are_read_in_order() {
    let v = timemaster::tasks_from_rows(vec![row("a", "active"), row("b", "archived")]).unwrap();
    assert_eq!(v.len(), 2);
    assert_eq!(v[0].id, "a");
    assert_eq!(v[1].id, "b");
    assert_eq!(v[1].status, TaskStatus::Archived);
    assert_eq!(timemaster::tasks_from_rows(Vec::new()).unwrap().len(), 0);
}

#[test]
fn rows_with_an_unknown_status_fail() {
    let r = timemaster::tasks_from_rows(vec![row("a", "active"), row("b", "paused")]);
    match r {
        Err(DbError::InvalidInput(m)) => assert_eq!(m, "unknown task status: paused"),
        _ => panic!("expected invalid input"),
    }
}

#[test]
fn lookup_without_rows_names_the_id() {
    match timemaster::task_from_rows(Vec::new(), "x1") {
        Err(DbError::InvalidInput(m)) => assert_eq!(m, "task x1 not found"),
        _ => panic!("expected invalid input"),
    }
    match timemaster::task_from_rows(vec![row("other", "active")], "x1") {
        Err(DbError::InvalidInput(m)) => assert_eq!(m, "task x1 not found"),
        _ => panic!("expected invalid input"),
    }
    let t = timemaster::task_from_rows(vec![row("x1", "completed"), row("x1", "active")], "x1")
        .unwrap();
    assert_eq!(t.status, TaskStatus::Completed);
}

#[test]
fn archived_increment_message() {
    let t = fresh("simple", 2).with_status(TaskStatus::Archived, s("t1"));
    match t.incremented(s("t2")) {
        Err(DbError::InvalidInput(m)) => assert_eq!(m, "cannot update archived task"),
        _ => panic!("expected invalid input"),
    }
}
