use rusqlite::Connection;
use science::commands::{analyze, init, record, record_target, start, stop};
use science::models::{Datapoint, Experiment};
use science::util::Error;

fn fresh() -> Connection {
    let conn = Connection::open_in_memory().unwrap();
    assert_eq!(init(&conn).ok(), Some(String::from("Initialized science project in .science directory.")));
    conn
}

fn count(conn: &Connection, table: &str) -> i64 {
    conn.query_row(&format!("SELECT COUNT(*) FROM {}", table), [], |row| row.get(0))
        .unwrap()
}

fn specific_message(r: Result<String, Error>) -> String {
    match r {
        Err(Error::Specific(_, msg)) => msg,
        _ => panic!("expected an expected failure"),
    }
}

#[test]
fn init_is_idempotent() {
    let conn = fresh();
    assert!(init(&conn).is_ok());
    assert_eq!(count(&conn, "migrations"), 5);
    assert_eq!(count(&conn, "experiments"), 0);
}

#[test]
fn end_to_end_start_and_stop() {
    let mut conn = fresh();
    assert_eq!(count(&conn, "experiments"), 0);

    let r = start(&mut conn, "d", "passing", Ok(String::from("abc123\n")));
    assert_eq!(r.ok(), Some(String::from("Started experiment.")));
    assert_eq!(count(&conn, "experiments"), 1);
    assert_eq!(count(&conn, "current_experiment"), 1);
    let current = Experiment::current(&conn).ok().unwrap().unwrap();
    let dps = current.datapoints(&conn).ok().unwrap();
    assert_eq!(dps.len(), 1);
    assert_eq!(dps[0].sha, "abc123");
    assert_eq!(dps[0].description, "d");
    assert_eq!(dps[0].status, "passing");

    let again = start(&mut conn, "e", "failing", Ok(String::from("def456\n")));
    assert_eq!(
        specific_message(again),
        "A science experiment is already in progress.  To record a new datapoint, run `science record`."
    );
    assert_eq!(count(&conn, "experiments"), 1);
    assert_eq!(count(&conn, "current_experiment"), 1);
    assert_eq!(count(&conn, "datapoints"), 1);

    assert_eq!(stop(&mut conn).ok(), Some(String::from("Stopped experiment.")));
    assert_eq!(count(&conn, "current_experiment"), 0);
    assert_eq!(count(&conn, "experiments"), 0);

    assert_eq!(
        specific_message(stop(&mut conn)),
        "There is no ongoing science experiment to stop."
    );
}

#[test]
fn start_without_revision_changes_nothing() {
    let mut conn = fresh();
    let r = start(&mut conn, "d", "passing", Err(String::from("not a repository")));
    assert!(matches!(r, Err(Error::Generic(Some(ref c))) if c == "not a repository"));
    assert_eq!(count(&conn, "experiments"), 0);
    assert_eq!(count(&conn, "current_experiment"), 0);
    assert_eq!(count(&conn, "datapoints"), 0);
}

#[test]
fn stop_removes_experiment_and_pointer_together() {
    let mut conn = fresh();
    assert!(start(&mut conn, "d", "passing", Ok(String::from("abc"))).is_ok());
    let id = Experiment::current(&conn).ok().unwrap().unwrap().id;
    assert!(stop(&mut conn).is_ok());
    let left: i64 = conn
        .query_row("SELECT COUNT(*) FROM experiments WHERE id = ?", [id], |row| row.get(0))
        .unwrap();
    assert_eq!(left, 0);
    assert_eq!(count(&conn, "current_experiment"), 0);
}

#[test]
fn alternating_start_and_stop_keeps_one_pointer_at_most() {
    let mut conn = fresh();
    for round in 0..3 {
        assert!(start(&mut conn, "d", "passing", Ok(format!("sha{}", round))).is_ok());
        assert_eq!(count(&conn, "current_experiment"), 1);
        assert!(start(&mut conn, "d", "passing", Ok(String::from("x"))).is_err());
        assert_eq!(count(&conn, "current_experiment"), 1);
        assert!(stop(&mut conn).is_ok());
        assert_eq!(count(&conn, "current_experiment"), 0);
        assert!(stop(&mut conn).is_err());
        assert_eq!(count(&conn, "current_experiment"), 0);
    }
}

#[test]
fn store_refuses_a_second_pointer_row() {
    let conn = fresh();
    let a = Experiment::create(&conn).ok().unwrap();
    let b = Experiment::create(&conn).ok().unwrap();
    assert!(a.id < b.id);
    assert!(a.make_current(&conn).is_ok());
    assert!(matches!(b.make_current(&conn), Err(Error::Generic(Some(_)))));
    assert!(Experiment::delete_current(&conn).is_ok());
    assert!(Experiment::current(&conn).ok().unwrap().is_none());
}

#[test]
fn record_needs_an_active_experiment() {
    let conn = fresh();
    match record_target(&conn) {
        Err(Error::Specific(None, msg)) => {
            assert_eq!(msg, "You need to start a science experiment first.  Run `science start`.")
        }
        _ => panic!("expected an expected failure"),
    }
}

#[test]
fn record_after_commit() {
    let mut conn = fresh();
    assert!(start(&mut conn, "d", "passing", Ok(String::from("abc\n"))).is_ok());
    let exp = record_target(&conn).ok().unwrap();
    let r = record(&conn, &exp, "d2", "failing", Ok(()), Some(Ok(String::from("fff\n"))));
    assert_eq!(r.ok(), Some(String::from("Recorded datapoint.")));
    let dps = exp.datapoints(&conn).ok().unwrap();
    assert_eq!(dps.len(), 2);
    assert_eq!(dps[1].sha, "fff");
    assert_eq!(dps[1].description, "d2");
    assert_eq!(dps[1].status, "failing");
}

#[test]
fn failed_lookup_after_commit_is_divergence() {
    let mut conn = fresh();
    assert!(start(&mut conn, "d", "passing", Ok(String::from("abc\n"))).is_ok());
    let exp = record_target(&conn).ok().unwrap();
    let r = record(&conn, &exp, "d2", "failing", Ok(()), Some(Err(String::from("rev-parse failed"))));
    match r {
        Err(Error::Specific(Some(cause), msg)) => {
            assert_eq!(cause, "rev-parse failed");
            assert!(msg.starts_with("A commit was made, but its revision could not be looked up"));
        }
        _ => panic!("expected a divergence"),
    }
    assert_eq!(count(&conn, "datapoints"), 1);
}

#[test]
fn failed_commit_records_nothing() {
    let mut conn = fresh();
    assert!(start(&mut conn, "d", "passing", Ok(String::from("abc\n"))).is_ok());
    let exp = record_target(&conn).ok().unwrap();
    let r = record(&conn, &exp, "d2", "failing", Err(String::from("nothing to commit")), None);
    assert!(matches!(r, Err(Error::Generic(Some(ref c))) if c == "nothing to commit"));
    assert_eq!(count(&conn, "datapoints"), 1);
}

#[test]
fn failed_insert_after_commit_names_the_row() {
    let conn = fresh();
    conn.execute_batch("DROP TABLE datapoints").unwrap();
    let exp = Experiment { id: 3 };
    let r = record(&conn, &exp, "d2", "failing", Ok(()), Some(Ok(String::from("beef\n"))));
    match r {
        Err(Error::Specific(Some(_), msg)) => assert_eq!(
            msg,
            "A commit was made, but its datapoint could not be saved.  Insert it into the datapoints table of .science/Science.db by hand, with experiment_id 3, sha beef, description d2, status failing."
        ),
        _ => panic!("expected a divergence"),
    }
}

#[test]
fn datapoint_round_trip() {
    let conn = fresh();
    let created = Datapoint::create(
        &conn,
        &String::from("d1"),
        7,
        &String::from("abc123"),
        &String::from("failing"),
    )
    .ok()
    .unwrap();
    assert_eq!(created.experiment_id, 7);
    let dps = Experiment { id: 7 }.datapoints(&conn).ok().unwrap();
    assert_eq!(dps.len(), 1);
    assert_eq!(dps[0].id, created.id);
    assert_eq!(dps[0].description, "d1");
    assert_eq!(dps[0].experiment_id, 7);
    assert_eq!(dps[0].sha, "abc123");
    assert_eq!(dps[0].status, "failing");
}

#[test]
fn store_errors_are_generic() {
    let conn = Connection::open_in_memory().unwrap();
    match Experiment::current(&conn) {
        Err(Error::Generic(Some(cause))) => assert!(cause.contains("current_experiment")),
        _ => panic!("expected an unexpected failure"),
    }
}

#[test]
fn analyze_lists_datapoints() {
    let mut conn = fresh();
    assert!(start(&mut conn, "first", "passing", Ok(String::from("abc\n"))).is_ok());
    let exp = record_target(&conn).ok().unwrap();
    assert!(record(&conn, &exp, "second one", "failing", Ok(()), Some(Ok(String::from("defg")))).is_ok());
    let table = analyze(&conn).ok().unwrap();
    assert_eq!(
        table,
        "1 | first      | abc  | passing\n2 | second one | defg | failing"
    );
}

#[test]
fn analyze_without_experiment() {
    let conn = fresh();
    assert!(matches!(analyze(&conn), Err(Error::Specific(None, _))));
}
