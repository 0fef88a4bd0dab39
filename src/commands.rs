//! The verbs: `init`, `start`, `record`, `stop` and `analyze`.
//!
//! Each reads the current experiment, decides through the state machine, and
//! changes the store inside a transaction where more than one row changes.
//! The version-control steps are not made here: their outcomes are handed in.
use vstd::prelude::*;
use rusqlite::Connection;
use crate::formatter::{DatapointsFormatter, table_text, row_text};
use crate::lifecycle::{
    start_gate, stop_gate, record_gate, already_active_message, nothing_to_record_message,
    nothing_to_stop_message, nothing_to_analyze_message,
};
use crate::migrations;
use crate::models::{Datapoint, Experiment, sql_failure};
use crate::recorder::{record_datapoint, revision_outcome, commit_view, lookup_view, insert_divergence_message};
use crate::store::{ConnectionLike, begin, commit};
use crate::util::{Error, ErrorModel};

verus! {

/// What a verb reports: the message for the user, or the failure.
pub type CommandResult = Result<String, Error>;

pub open spec fn init_message() -> Seq<char> {
    "Initialized science project in .science directory."@
}

pub open spec fn started_message() -> Seq<char> {
    "Started experiment."@
}

pub open spec fn recorded_message() -> Seq<char> {
    "Recorded datapoint."@
}

pub open spec fn stopped_message() -> Seq<char> {
    "Stopped experiment."@
}

/// Brings the schema of the store up to date; safe to run on every start.
pub fn init<T: ConnectionLike>(conn: &T) -> (r: CommandResult)
    ensures
        r matches Ok(m) ==> m@ == init_message(),
        r matches Err(e) ==> e@ matches ErrorModel::Generic(Some(_)),
{
    migrations::run(conn)?;
    Ok(String::from_str("Initialized science project in .science directory."))
}

/// Starts an experiment where none is active: in one transaction, the writes
/// of `start_writes` (a new experiment, the pointer to it, and its first
/// datapoint, for the revision that `lookup`, the output of the revision
/// lookup or its failure, gives). Where `start_gate` refuses, nothing is
/// written; where a step fails, the transaction is dropped uncommitted and
/// rolls back.
pub fn start(conn: &mut Connection, description: &str, status: &str, lookup: Result<String, String>) -> (r:
    CommandResult)
    ensures
        r matches Ok(m) ==> m@ == started_message(),
        r matches Err(e) ==> e@ matches ErrorModel::Generic(Some(_)) || e@ == ErrorModel::Specific(None, already_active_message()),
        lookup is Err ==> r is Err,
{
    let current = Experiment::current(conn)?;
    start_gate(&current)?;
    let tx = match begin(conn) {
        Ok(tx) => tx,
        Err(e) => return Err(sql_failure(&e)),
    };
    let experiment = Experiment::create(&tx)?;
    experiment.make_current(&tx)?;
    let looked_up = Some(lookup);
    let _ = record_datapoint(&tx, experiment.id, description, status, &None, &looked_up)?;
    match commit(tx) {
        Ok(()) => Ok(String::from_str("Started experiment.")),
        Err(e) => Err(sql_failure(&e)),
    }
}

/// The experiment that a datapoint would be recorded for: the current one.
/// Call it before making the commit.
pub fn record_target<T: ConnectionLike>(conn: &T) -> (r: Result<Experiment, Error>)
    ensures
        r matches Err(e) ==> e@ matches ErrorModel::Generic(Some(_)) || e@ == ErrorModel::Specific(None, nothing_to_record_message()),
{
    let current = Experiment::current(conn)?;
    record_gate(current)
}

/// Records a datapoint for `experiment` after the commit step: `commit` is its
/// outcome, `lookup` that of the revision lookup that followed (`None` where it
/// was not made). Nothing is inserted unless both succeeded; a failure after a
/// successful commit is a divergence that says how to repair it by hand.
pub fn record<T: ConnectionLike>(
    conn: &T,
    experiment: &Experiment,
    description: &str,
    status: &str,
    commit: Result<(), String>,
    lookup: Option<Result<String, String>>,
) -> (r: CommandResult)
    ensures
        revision_outcome(commit_view(Some(commit)), lookup_view(lookup)) matches Err(e) ==> r matches Err(
            x,
        ) && x@ == e,
        revision_outcome(commit_view(Some(commit)), lookup_view(lookup)) matches Ok(sha) ==> {
            &&& r matches Ok(m) ==> m@ == recorded_message()
            &&& r matches Err(x) ==> x@ matches ErrorModel::Specific(Some(_), msg)
                && msg == insert_divergence_message(experiment.id as int, sha, description@, status@)
        },
{
    let committed = Some(commit);
    let _ = record_datapoint(conn, experiment.id, description, status, &committed, &lookup)?;
    Ok(String::from_str("Recorded datapoint."))
}

/// Stops the current experiment: where `stop_gate` allows it, in one
/// transaction, the writes of `Experiment::delete_statements` (the pointer
/// to it, then its row). Its datapoints stay.
pub fn stop(conn: &mut Connection) -> (r: CommandResult)
    ensures
        r matches Ok(m) ==> m@ == stopped_message(),
        r matches Err(e) ==> e@ matches ErrorModel::Generic(Some(_)) || e@ == ErrorModel::Specific(None, nothing_to_stop_message()),
{
    let current = Experiment::current(conn)?;
    let experiment = stop_gate(current)?;
    let tx = match begin(conn) {
        Ok(tx) => tx,
        Err(e) => return Err(sql_failure(&e)),
    };
    experiment.delete(&tx)?;
    match commit(tx) {
        Ok(()) => Ok(String::from_str("Stopped experiment.")),
        Err(e) => Err(sql_failure(&e)),
    }
}

/// The table of `dps`, one line per datapoint in their order.
pub fn datapoints_table(dps: &Vec<Datapoint>) -> (r: String)
    ensures
        r@ == table_text(Seq::new(dps@.len(), |k: int| row_text(dps@[k]))),
{
    DatapointsFormatter::from_datapoints(dps).format()
}

/// The table of the current experiment's datapoints, read through
/// `Experiment::datapoints` and laid out by [`datapoints_table`]. Nothing is
/// written.
pub fn analyze<T: ConnectionLike>(conn: &T) -> (r: CommandResult)
    ensures
        r matches Ok(t) ==> exists|dps: Seq<Datapoint>|
            t@ == table_text(Seq::new(dps.len(), |k: int| row_text(dps[k]))),
        r matches Err(e) ==> e@ matches ErrorModel::Generic(Some(_)) || e@ == ErrorModel::Specific(None, nothing_to_analyze_message()),
{
    let current = Experiment::current(conn)?;
    match current {
        Some(experiment) => {
            let dps = experiment.datapoints(conn)?;
            Ok(datapoints_table(&dps))
        },
        None => Err(
            Error::Specific(
                None,
                String::from_str("There is no ongoing science experiment to analyze."),
            ),
        ),
    }
}

} // verus!
