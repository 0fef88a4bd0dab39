//! Experiments and their datapoints, as rows of the store.
//!
//! Each operation hands the store one statement that a verified builder here
//! makes, with an exact contract over [`write_statement`] or a query's text.
//! [`StoreState`] and [`apply`] say what each write does to the rows.
use vstd::prelude::*;
use crate::store::{
    ConnectionLike, ParamModel, SqlParam, Statement, StatementModel, execute, last_insert_rowid,
    query_integers, query_datapoints, error_text,
};
use crate::util::{Error, ErrorModel, generic_error};
use rusqlite::Error as SqlError;

verus! {

/// One recorded observation: a description and a status tag, linked to the
/// revision that was current when it was recorded.
pub struct Datapoint {
    pub id: i64,
    pub description: String,
    pub experiment_id: i64,
    pub sha: String,
    pub status: String,
}

/// One tracked span of work.
pub struct Experiment {
    pub id: i64,
}

/// The fields of a datapoint row that its insert sets.
pub struct DatapointRow {
    pub experiment_id: int,
    pub description: Seq<char>,
    pub sha: Seq<char>,
    pub status: Seq<char>,
}

/// The writes that the library makes.
pub enum Write {
    /// A new experiment row, with the next id.
    InsertExperiment,
    /// The pointer row naming an experiment.
    MakeCurrent(int),
    /// The pointer rows naming an experiment.
    DeletePointer(int),
    /// An experiment's row.
    DeleteExperiment(int),
    /// Every pointer row.
    ClearPointers,
    /// A new datapoint row.
    InsertDatapoint(DatapointRow),
}

pub open spec fn insert_experiment_sql() -> Seq<char> {
    "INSERT INTO experiments DEFAULT VALUES"@
}

pub open spec fn make_current_sql() -> Seq<char> {
    "INSERT INTO current_experiment (id) VALUES (?)"@
}

pub open spec fn delete_pointer_sql() -> Seq<char> {
    "DELETE FROM current_experiment WHERE id = ?"@
}

pub open spec fn delete_experiment_sql() -> Seq<char> {
    "DELETE FROM experiments WHERE id = ?"@
}

pub open spec fn clear_pointers_sql() -> Seq<char> {
    "DELETE FROM current_experiment"@
}

pub open spec fn insert_datapoint_sql() -> Seq<char> {
    "INSERT INTO datapoints (description, experiment_id, sha, status) VALUES (?, ?, ?, ?)"@
}

pub open spec fn select_current_sql() -> Seq<char> {
    "SELECT id FROM current_experiment LIMIT 1"@
}

pub open spec fn select_datapoints_sql() -> Seq<char> {
    "SELECT id, description, experiment_id, sha, status FROM datapoints WHERE experiment_id = ?"@
}

/// The statement that makes a write.
pub open spec fn write_statement(w: Write) -> StatementModel {
    match w {
        Write::InsertExperiment => StatementModel { sql: insert_experiment_sql(), params: seq![] },
        Write::MakeCurrent(id) => StatementModel {
            sql: make_current_sql(),
            params: seq![ParamModel::Integer(id)],
        },
        Write::DeletePointer(id) => StatementModel {
            sql: delete_pointer_sql(),
            params: seq![ParamModel::Integer(id)],
        },
        Write::DeleteExperiment(id) => StatementModel {
            sql: delete_experiment_sql(),
            params: seq![ParamModel::Integer(id)],
        },
        Write::ClearPointers => StatementModel { sql: clear_pointers_sql(), params: seq![] },
        Write::InsertDatapoint(row) => StatementModel {
            sql: insert_datapoint_sql(),
            params: seq![
                ParamModel::Text(row.description),
                ParamModel::Integer(row.experiment_id),
                ParamModel::Text(row.sha),
                ParamModel::Text(row.status),
            ],
        },
    }
}

/// The rows of the store that the library governs, and the id that the next
/// experiment will get.
pub struct StoreState {
    pub experiments: Set<int>,
    pub current: Seq<int>,
    pub datapoints: Seq<DatapointRow>,
    pub next_id: int,
}

/// What a write does to the rows.
pub open spec fn apply(s: StoreState, w: Write) -> StoreState {
    match w {
        Write::InsertExperiment => StoreState {
            experiments: s.experiments.insert(s.next_id),
            next_id: s.next_id + 1,
            ..s
        },
        Write::MakeCurrent(id) => StoreState { current: s.current.push(id), ..s },
        Write::DeletePointer(id) => StoreState { current: s.current.filter(|x: int| x != id), ..s },
        Write::DeleteExperiment(id) => StoreState { experiments: s.experiments.remove(id), ..s },
        Write::ClearPointers => StoreState { current: Seq::empty(), ..s },
        Write::InsertDatapoint(row) => StoreState { datapoints: s.datapoints.push(row), ..s },
    }
}

/// What writes made in order do to the rows.
pub open spec fn apply_all(s: StoreState, ws: Seq<Write>) -> StoreState
    decreases ws.len(),
{
    if ws.len() == 0 {
        s
    } else {
        apply(apply_all(s, ws.drop_last()), ws.last())
    }
}

/// The writes that remove an experiment: its pointer rows, then its row.
pub open spec fn delete_writes(id: int) -> Seq<Write> {
    seq![Write::DeletePointer(id), Write::DeleteExperiment(id)]
}

/// The experiment that the rows read from the pointer table name: the first,
/// if any.
pub open spec fn current_of(ids: Seq<i64>) -> Option<int> {
    if ids.len() == 0 {
        None
    } else {
        Some(ids[0] as int)
    }
}

pub(crate) fn sql_failure(e: &SqlError) -> (r: Error)
    ensures
        r@ matches ErrorModel::Generic(Some(_)),
{
    generic_error(error_text(e))
}

/// Runs one statement; any failure is an unexpected one, with the store's
/// description as its cause.
fn run_statement<T: ConnectionLike>(conn: &T, stmt: &Statement) -> (r: Result<(), Error>)
    ensures
        r matches Err(e) ==> e@ matches ErrorModel::Generic(Some(_)),
{
    match execute(conn.connection(), stmt) {
        Ok(_) => Ok(()),
        Err(e) => Err(sql_failure(&e)),
    }
}

/// The experiment that the ids read from the pointer table name.
pub fn current_from_ids(ids: &Vec<i64>) -> (r: Option<Experiment>)
    ensures
        (ids@.len() == 0) == (r is None),
        r matches Some(e) ==> e.id == ids@[0],
{
    if ids.len() == 0 {
        None
    } else {
        Some(Experiment { id: ids[0] })
    }
}

impl Datapoint {
    /// The insert of a datapoint row with these fields.
    pub fn insert_statement(description: &String, experiment_id: i64, sha: &String, status: &String) -> (r:
        Statement)
        ensures
            r@ == write_statement(
                Write::InsertDatapoint(
                    DatapointRow {
                        experiment_id: experiment_id as int,
                        description: description@,
                        sha: sha@,
                        status: status@,
                    },
                ),
            ),
    {
        let r = Statement {
            sql: "INSERT INTO datapoints (description, experiment_id, sha, status) VALUES (?, ?, ?, ?)",
            params: vec![
                SqlParam::Text(description.clone()),
                SqlParam::Integer(experiment_id),
                SqlParam::Text(sha.clone()),
                SqlParam::Text(status.clone()),
            ],
        };
        assert(r@.params =~= seq![
            ParamModel::Text(description@),
            ParamModel::Integer(experiment_id as int),
            ParamModel::Text(sha@),
            ParamModel::Text(status@),
        ]);
        r
    }

    /// Inserts a datapoint for experiment `experiment_id` through
    /// [`Datapoint::insert_statement`]; the row gets an id from the store and
    /// the fields as given.
    pub fn create<T: ConnectionLike>(
        conn: &T,
        description: &String,
        experiment_id: i64,
        sha: &String,
        status: &String,
    ) -> (r: Result<Datapoint, Error>)
        ensures
            r matches Ok(d) ==> d.description@ == description@ && d.experiment_id == experiment_id
                && d.sha@ == sha@ && d.status@ == status@,
            r matches Err(e) ==> e@ matches ErrorModel::Generic(Some(_)),
    {
        let stmt = Datapoint::insert_statement(description, experiment_id, sha, status);
        run_statement(conn, &stmt)?;
        Ok(
            Datapoint {
                id: last_insert_rowid(conn.connection()),
                description: description.clone(),
                experiment_id,
                sha: sha.clone(),
                status: status.clone(),
            },
        )
    }
}

impl Experiment {
    /// The insert of a new experiment row.
    pub fn insert_statement() -> (r: Statement)
        ensures
            r@ == write_statement(Write::InsertExperiment),
    {
        let r = Statement { sql: "INSERT INTO experiments DEFAULT VALUES", params: Vec::new() };
        assert(r@.params =~= Seq::<ParamModel>::empty());
        r
    }

    /// The insert of the pointer row naming this experiment.
    pub fn make_current_statement(&self) -> (r: Statement)
        ensures
            r@ == write_statement(Write::MakeCurrent(self.id as int)),
    {
        let r = Statement {
            sql: "INSERT INTO current_experiment (id) VALUES (?)",
            params: vec![SqlParam::Integer(self.id)],
        };
        assert(r@.params =~= seq![ParamModel::Integer(self.id as int)]);
        r
    }

    /// The removal of every pointer row.
    pub fn delete_current_statement() -> (r: Statement)
        ensures
            r@ == write_statement(Write::ClearPointers),
    {
        let r = Statement { sql: "DELETE FROM current_experiment", params: Vec::new() };
        assert(r@.params =~= Seq::<ParamModel>::empty());
        r
    }

    /// The statements that remove this experiment, in order: its pointer rows,
    /// then its row. Its datapoints stay.
    pub fn delete_statements(&self) -> (r: (Statement, Statement))
        ensures
            r.0@ == write_statement(delete_writes(self.id as int)[0]),
            r.1@ == write_statement(delete_writes(self.id as int)[1]),
    {
        let pointer = Statement {
            sql: "DELETE FROM current_experiment WHERE id = ?",
            params: vec![SqlParam::Integer(self.id)],
        };
        let row = Statement {
            sql: "DELETE FROM experiments WHERE id = ?",
            params: vec![SqlParam::Integer(self.id)],
        };
        assert(pointer@.params =~= seq![ParamModel::Integer(self.id as int)]);
        assert(row@.params =~= seq![ParamModel::Integer(self.id as int)]);
        (pointer, row)
    }

    /// The query for the pointer row.
    pub fn current_query() -> (r: Statement)
        ensures
            r@ == (StatementModel { sql: select_current_sql(), params: seq![] }),
    {
        let r = Statement { sql: "SELECT id FROM current_experiment LIMIT 1", params: Vec::new() };
        assert(r@.params =~= Seq::<ParamModel>::empty());
        r
    }

    /// The query for this experiment's datapoints.
    pub fn datapoints_query(&self) -> (r: Statement)
        ensures
            r@ == (StatementModel {
                sql: select_datapoints_sql(),
                params: seq![ParamModel::Integer(self.id as int)],
            }),
    {
        let r = Statement {
            sql: "SELECT id, description, experiment_id, sha, status FROM datapoints WHERE experiment_id = ?",
            params: vec![SqlParam::Integer(self.id)],
        };
        assert(r@.params =~= seq![ParamModel::Integer(self.id as int)]);
        r
    }

    /// Inserts a new experiment, through [`Experiment::insert_statement`],
    /// with an id from the store. This does not make it current.
    pub fn create<T: ConnectionLike>(conn: &T) -> (r: Result<Experiment, Error>)
        ensures
            r matches Err(e) ==> e@ matches ErrorModel::Generic(Some(_)),
    {
        run_statement(conn, &Experiment::insert_statement())?;
        Ok(Experiment { id: last_insert_rowid(conn.connection()) })
    }

    /// The current experiment, read through [`Experiment::current_query`] and
    /// decided by [`current_from_ids`]; `None` where there is none.
    pub fn current<T: ConnectionLike>(conn: &T) -> (r: Result<Option<Experiment>, Error>)
        ensures
            r matches Err(e) ==> e@ matches ErrorModel::Generic(Some(_)),
    {
        match query_integers(conn.connection(), &Experiment::current_query()) {
            Ok(ids) => Ok(current_from_ids(&ids)),
            Err(e) => Err(sql_failure(&e)),
        }
    }

    /// Clears the pointer rows, through [`Experiment::delete_current_statement`].
    pub fn delete_current<T: ConnectionLike>(conn: &T) -> (r: Result<(), Error>)
        ensures
            r matches Err(e) ==> e@ matches ErrorModel::Generic(Some(_)),
    {
        run_statement(conn, &Experiment::delete_current_statement())
    }

    /// Makes this experiment the current one, through
    /// [`Experiment::make_current_statement`]. Valid only where none is: the
    /// store refuses a second pointer row.
    pub fn make_current<T: ConnectionLike>(&self, conn: &T) -> (r: Result<(), Error>)
        ensures
            r matches Err(e) ==> e@ matches ErrorModel::Generic(Some(_)),
    {
        run_statement(conn, &self.make_current_statement())
    }

    /// Removes this experiment and the pointer rows naming it, through
    /// [`Experiment::delete_statements`] in their order, stopping at the first
    /// failure. Run it in a transaction, so that both go or neither does.
    pub fn delete<T: ConnectionLike>(&self, conn: &T) -> (r: Result<(), Error>)
        ensures
            r matches Err(e) ==> e@ matches ErrorModel::Generic(Some(_)),
    {
        let (pointer, row) = self.delete_statements();
        run_statement(conn, &pointer)?;
        run_statement(conn, &row)
    }

    /// The datapoints recorded for this experiment, read through
    /// [`Experiment::datapoints_query`], in the store's order.
    pub fn datapoints<T: ConnectionLike>(&self, conn: &T) -> (r: Result<Vec<Datapoint>, Error>)
        ensures
            r matches Err(e) ==> e@ matches ErrorModel::Generic(Some(_)),
    {
        match query_datapoints(conn.connection(), &self.datapoints_query()) {
            Ok(dps) => Ok(dps),
            Err(e) => Err(sql_failure(&e)),
        }
    }
}

} // verus!
