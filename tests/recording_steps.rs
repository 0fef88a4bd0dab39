use science::lifecycle::{record_gate, start_gate, stop_gate};
use science::models::Experiment;
use science::recorder::{commit_message, insert_failure, resolve_revision, revision_from_output};
use science::util::Error;

#[test]
fn revision_drops_line_end() {
    assert_eq!(revision_from_output("abc123\n"), "abc123");
    assert_eq!(revision_from_output("abc123\r\n  "), "abc123");
    assert_eq!(revision_from_output("abc123"), "abc123");
    assert_eq!(revision_from_output(""), "");
}

#[test]
fn commit_message_embeds_description_and_status() {
    assert_eq!(
        commit_message("tweak", "passing"),
        "(science commit)\n\ndescription:\n\ntweak\n\nstatus:\n\npassing"
    );
}

#[test]
fn revision_without_commit() {
    let r = resolve_revision(&None, &Some(Ok(String::from("abc\n"))));
    assert_eq!(r.ok(), Some(String::from("abc")));
    let r = resolve_revision(&None, &Some(Err(String::from("boom"))));
    assert!(matches!(r, Err(Error::Generic(Some(ref c))) if c == "boom"));
    let r = resolve_revision(&None, &None);
    assert!(matches!(r, Err(Error::Generic(None))));
}

#[test]
fn revision_after_failed_commit() {
    let r = resolve_revision(&Some(Err(String::from("hook refused"))), &None);
    assert!(matches!(r, Err(Error::Generic(Some(ref c))) if c == "hook refused"));
}

#[test]
fn revision_after_commit() {
    let r = resolve_revision(&Some(Ok(())), &Some(Ok(String::from("0123abcd\n"))));
    assert_eq!(r.ok(), Some(String::from("0123abcd")));
    let r = resolve_revision(&Some(Ok(())), &Some(Err(String::from("boom"))));
    assert!(matches!(r, Err(Error::Specific(Some(ref c), _)) if c == "boom"));
    let r = resolve_revision(&Some(Ok(())), &None);
    assert!(matches!(r, Err(Error::Specific(None, _))));
}

#[test]
fn insert_failure_without_commit_is_the_cause() {
    let e = insert_failure(false, Error::Generic(Some(String::from("locked"))), 1, "s", "d", "st");
    assert!(matches!(e, Error::Generic(Some(ref c)) if c == "locked"));
}

#[test]
fn insert_failure_after_commit_names_values() {
    let e = insert_failure(true, Error::Generic(Some(String::from("locked"))), -2, "s", "d", "st");
    match e {
        Error::Specific(Some(c), msg) => {
            assert_eq!(c, "locked");
            assert!(msg.ends_with("with experiment_id -2, sha s, description d, status st."));
        }
        _ => panic!("expected a divergence"),
    }
}

#[test]
fn gates_follow_the_pointer() {
    assert!(start_gate(&None).is_ok());
    assert!(matches!(start_gate(&Some(Experiment { id: 1 })), Err(Error::Specific(None, _))));
    assert_eq!(stop_gate(Some(Experiment { id: 4 })).ok().map(|e| e.id), Some(4));
    match stop_gate(None) {
        Err(Error::Specific(None, m)) => assert_eq!(m, "There is no ongoing science experiment to stop."),
        _ => panic!("expected a refusal"),
    }
    assert_eq!(record_gate(Some(Experiment { id: 9 })).ok().map(|e| e.id), Some(9));
    assert!(matches!(record_gate(None), Err(Error::Specific(None, _))));
}
