use science::commands::datapoints_table;
use science::models::{current_from_ids, Datapoint, Experiment};
use science::recorder::finish_record;
use science::store::{SqlParam, Statement};
use science::util::Error;

fn texts(stmt: &Statement) -> Vec<String> {
    stmt.params
        .iter()
        .map(|p| match p {
            SqlParam::Integer(i) => format!("int {}", i),
            SqlParam::Text(t) => format!("text {}", t),
        })
        .collect()
}

#[test]
fn datapoint_insert_binds_fields_in_order() {
    let stmt = Datapoint::insert_statement(
        &String::from("d1"),
        7,
        &String::from("abc123"),
        &String::from("failing"),
    );
    assert_eq!(
        stmt.sql,
        "INSERT INTO datapoints (description, experiment_id, sha, status) VALUES (?, ?, ?, ?)"
    );
    assert_eq!(texts(&stmt), vec!["text d1", "int 7", "text abc123", "text failing"]);
}

#[test]
fn experiment_statements() {
    let e = Experiment { id: 5 };
    assert_eq!(Experiment::insert_statement().sql, "INSERT INTO experiments DEFAULT VALUES");
    assert!(Experiment::insert_statement().params.is_empty());
    let mc = e.make_current_statement();
    assert_eq!(mc.sql, "INSERT INTO current_experiment (id) VALUES (?)");
    assert_eq!(texts(&mc), vec!["int 5"]);
    let (pointer, row) = e.delete_statements();
    assert_eq!(pointer.sql, "DELETE FROM current_experiment WHERE id = ?");
    assert_eq!(texts(&pointer), vec!["int 5"]);
    assert_eq!(row.sql, "DELETE FROM experiments WHERE id = ?");
    assert_eq!(texts(&row), vec!["int 5"]);
    assert_eq!(Experiment::delete_current_statement().sql, "DELETE FROM current_experiment");
    let q = e.datapoints_query();
    assert_eq!(texts(&q), vec!["int 5"]);
    assert_eq!(Experiment::current_query().sql, "SELECT id FROM current_experiment LIMIT 1");
}

#[test]
fn current_is_the_first_pointer_id() {
    assert!(current_from_ids(&vec![]).is_none());
    assert_eq!(current_from_ids(&vec![4]).map(|e| e.id), Some(4));
    assert_eq!(current_from_ids(&vec![9, 2]).map(|e| e.id), Some(9));
}

#[test]
fn finish_record_keeps_insert_outcome() {
    let dp = Datapoint {
        id: 1,
        description: String::from("d"),
        experiment_id: 2,
        sha: String::from("s"),
        status: String::from("st"),
    };
    let ok = finish_record(Ok(dp), true, 2, "s", "d", "st");
    assert_eq!(ok.ok().map(|d| d.id), Some(1));
    let failed = finish_record(Err(Error::Generic(Some(String::from("busy")))), true, 2, "s", "d", "st");
    assert!(matches!(failed, Err(Error::Specific(Some(ref c), _)) if c == "busy"));
    let failed = finish_record(Err(Error::Generic(Some(String::from("busy")))), false, 2, "s", "d", "st");
    assert!(matches!(failed, Err(Error::Generic(Some(ref c))) if c == "busy"));
}

#[test]
fn table_of_datapoints() {
    let dps = vec![Datapoint {
        id: 3,
        description: String::from("x"),
        experiment_id: 1,
        sha: String::from("ab"),
        status: String::from("ok"),
    }];
    assert_eq!(datapoints_table(&dps), "3 | x | ab | ok");
}
