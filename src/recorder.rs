//! Recording a datapoint: an optional commit in the version-control system,
//! the lookup of the revision it left, and the insert of the row.
//!
//! The commit cannot be undone, so the three steps share no transaction.
//! Every failure is classified by the step that failed: before a successful
//! commit nothing has changed, after one the store lags behind the history
//! and the error says how to repair that by hand.
use vstd::prelude::*;
use crate::models::Datapoint;
use crate::store::ConnectionLike;
use crate::util::{Error, ErrorModel, log_entry, int_text, int_string, text_of};

verus! {

/// The outcome of the commit step as text: `None` where no commit was asked for.
pub open spec fn commit_view(c: Option<Result<(), String>>) -> Option<Result<(), Seq<char>>> {
    match c {
        Some(Ok(())) => Some(Ok(())),
        Some(Err(e)) => Some(Err(e@)),
        None => None,
    }
}

/// The outcome of the revision lookup as text: `None` where it was not made.
pub open spec fn lookup_view(l: Option<Result<String, String>>) -> Option<Result<Seq<char>, Seq<char>>> {
    match l {
        Some(Ok(s)) => Some(Ok(s@)),
        Some(Err(e)) => Some(Err(e@)),
        None => None,
    }
}

pub open spec fn result_view<T: View>(r: Result<T, Error>) -> Result<T::V, ErrorModel> {
    match r {
        Ok(v) => Ok(v@),
        Err(e) => Err(e@),
    }
}

pub open spec fn is_blank(c: char) -> bool {
    c == ' ' || c == '\n' || c == '\r' || c == '\t'
}

/// The revision that the lookup printed, without the line end that follows it.
pub open spec fn revision_text(out: Seq<char>) -> Seq<char>
    decreases out.len(),
{
    if out.len() > 0 && is_blank(out.last()) {
        revision_text(out.drop_last())
    } else {
        out
    }
}

/// The message of a commit made for a datapoint.
pub open spec fn commit_message_text(description: Seq<char>, status: Seq<char>) -> Seq<char> {
    "(science commit)\n\ndescription:\n\n"@ + description + "\n\nstatus:\n\n"@ + status
}

/// What the user is told where the commit was made but its revision could
/// not be looked up.
pub open spec fn lookup_divergence_message() -> Seq<char> {
    "A commit was made, but its revision could not be looked up, so no datapoint was saved.  Look up the revision with `git rev-parse HEAD` and insert the datapoint into .science/Science.db by hand."@
}

/// What the user is told where the commit was made and its revision is known,
/// but the datapoint could not be saved: the values of the row to insert.
pub open spec fn insert_divergence_message(
    experiment_id: int,
    sha: Seq<char>,
    description: Seq<char>,
    status: Seq<char>,
) -> Seq<char> {
    "A commit was made, but its datapoint could not be saved.  Insert it into the datapoints table of .science/Science.db by hand, with experiment_id "@
        + int_text(experiment_id) + ", sha "@ + sha + ", description "@ + description
        + ", status "@ + status + "."@
}

/// The revision to record, or the failure of a step before the insert.
pub open spec fn revision_outcome(
    commit: Option<Result<(), Seq<char>>>,
    lookup: Option<Result<Seq<char>, Seq<char>>>,
) -> Result<Seq<char>, ErrorModel> {
    match commit {
        Some(Err(cause)) => Err(ErrorModel::Generic(Some(cause))),
        _ => {
            let committed = commit is Some;
            match lookup {
                Some(Ok(out)) => Ok(revision_text(out)),
                Some(Err(cause)) => if committed {
                    Err(ErrorModel::Specific(Some(cause), lookup_divergence_message()))
                } else {
                    Err(ErrorModel::Generic(Some(cause)))
                },
                None => if committed {
                    Err(ErrorModel::Specific(None, lookup_divergence_message()))
                } else {
                    Err(ErrorModel::Generic(None))
                },
            }
        },
    }
}

/// The failure reported where the insert failed with `cause`.
pub open spec fn insert_failure_model(
    committed: bool,
    cause: ErrorModel,
    experiment_id: int,
    sha: Seq<char>,
    description: Seq<char>,
    status: Seq<char>,
) -> ErrorModel {
    if committed {
        ErrorModel::Specific(
            log_entry(cause),
            insert_divergence_message(experiment_id, sha, description, status),
        )
    } else {
        cause
    }
}

/// The revision as the lookup printed it, without the line end.
pub fn revision_from_output(out: &str) -> (r: String)
    ensures
        r@ == revision_text(out@),
{
    let mut end: usize = out.unicode_len();
    proof {
        assert(out@.subrange(0, end as int) =~= out@);
    }
    while end > 0 && is_blank_char(out.get_char(end - 1))
        invariant
            end <= out@.len(),
            revision_text(out@) == revision_text(out@.subrange(0, end as int)),
        decreases end,
    {
        proof {
            let cut = out@.subrange(0, end as int);
            assert(cut.drop_last() =~= out@.subrange(0, end - 1));
        }
        end -= 1;
    }
    String::from_str(out.substring_char(0, end))
}

fn is_blank_char(c: char) -> (r: bool)
    ensures
        r == is_blank(c),
{
    c == ' ' || c == '\n' || c == '\r' || c == '\t'
}

/// The message of the commit made for a datapoint.
pub fn commit_message(description: &str, status: &str) -> (r: String)
    ensures
        r@ == commit_message_text(description@, status@),
{
    String::from_str("(science commit)\n\ndescription:\n\n").concat(description).concat(
        "\n\nstatus:\n\n",
    ).concat(status)
}

fn copy_error(e: &Option<String>) -> (r: Option<String>)
    ensures
        text_of(r) == text_of(*e),
{
    match e {
        Some(s) => Some(s.clone()),
        None => None,
    }
}

/// Classifies the outcomes of the commit step (`None` where no commit was
/// asked for) and of the revision lookup (`None` where it was not made): the
/// revision to record, or the failure to report.
pub fn resolve_revision(commit: &Option<Result<(), String>>, lookup: &Option<Result<String, String>>) -> (r:
    Result<String, Error>)
    ensures
        result_view(r) == revision_outcome(commit_view(*commit), lookup_view(*lookup)),
{
    match commit {
        Some(Err(cause)) => Err(Error::Generic(Some(cause.clone()))),
        _ => {
            let committed = commit.is_some();
            match lookup {
                Some(Ok(out)) => Ok(revision_from_output(out.as_str())),
                Some(Err(cause)) => if committed {
                    Err(Error::Specific(Some(cause.clone()), lookup_divergence()))
                } else {
                    Err(Error::Generic(Some(cause.clone())))
                },
                None => if committed {
                    Err(Error::Specific(None, lookup_divergence()))
                } else {
                    Err(Error::Generic(None))
                },
            }
        },
    }
}

fn lookup_divergence() -> (r: String)
    ensures
        r@ == lookup_divergence_message(),
{
    String::from_str(
        "A commit was made, but its revision could not be looked up, so no datapoint was saved.  Look up the revision with `git rev-parse HEAD` and insert the datapoint into .science/Science.db by hand.",
    )
}

/// The failure to report where the insert failed with `cause`: after a commit,
/// a divergence that names the row to insert by hand; else `cause` itself.
pub fn insert_failure(
    committed: bool,
    cause: Error,
    experiment_id: i64,
    sha: &str,
    description: &str,
    status: &str,
) -> (r: Error)
    ensures
        r@ == insert_failure_model(
            committed,
            cause@,
            experiment_id as int,
            sha@,
            description@,
            status@,
        ),
{
    if committed {
        let logged = match &cause {
            Error::Generic(c) => copy_error(c),
            Error::Specific(c, _) => copy_error(c),
        };
        let id = int_string(experiment_id);
        let msg = String::from_str(
            "A commit was made, but its datapoint could not be saved.  Insert it into the datapoints table of .science/Science.db by hand, with experiment_id ",
        ).concat(id.as_str()).concat(", sha ").concat(sha).concat(", description ").concat(
            description,
        ).concat(", status ").concat(status).concat(".");
        Error::Specific(logged, msg)
    } else {
        cause
    }
}

/// What the insert's outcome `inserted` makes of the call: the datapoint as
/// inserted, or the failure that [`insert_failure`] reports. A failed insert is
/// never passed over.
pub fn finish_record(
    inserted: Result<Datapoint, Error>,
    committed: bool,
    experiment_id: i64,
    sha: &str,
    description: &str,
    status: &str,
) -> (r: Result<Datapoint, Error>)
    ensures
        inserted is Ok ==> r == inserted,
        inserted matches Err(c) ==> r matches Err(x) && x@ == insert_failure_model(
            committed,
            c@,
            experiment_id as int,
            sha@,
            description@,
            status@,
        ),
{
    match inserted {
        Ok(d) => Ok(d),
        Err(cause) => Err(insert_failure(committed, cause, experiment_id, sha, description, status)),
    }
}

/// Records a datapoint for experiment `experiment_id`, given the outcome of
/// the commit step (`None` where no commit was asked for) and of the revision
/// lookup (`None` where it was not made). The outcomes are classified by
/// [`resolve_revision`]; only where it gives a revision is the row inserted,
/// through [`Datapoint::create`], and the insert's outcome is then classified
/// by [`finish_record`].
pub fn record_datapoint<T: ConnectionLike>(
    conn: &T,
    experiment_id: i64,
    description: &str,
    status: &str,
    commit: &Option<Result<(), String>>,
    lookup: &Option<Result<String, String>>,
) -> (r: Result<Datapoint, Error>)
    ensures
        revision_outcome(commit_view(*commit), lookup_view(*lookup)) matches Err(e) ==> r matches Err(
            x,
        ) && x@ == e,
        revision_outcome(commit_view(*commit), lookup_view(*lookup)) matches Ok(sha) ==> {
            &&& r matches Ok(d) ==> d.experiment_id == experiment_id && d.sha@ == sha
                && d.description@ == description@ && d.status@ == status@
            &&& r matches Err(x) ==> (if commit is Some {
                x@ matches ErrorModel::Specific(Some(_), msg) && msg == insert_divergence_message(
                    experiment_id as int,
                    sha,
                    description@,
                    status@,
                )
            } else {
                x@ matches ErrorModel::Generic(Some(_))
            })
        },
{
    let sha = resolve_revision(commit, lookup)?;
    let owned_description = String::from_str(description);
    let owned_status = String::from_str(status);
    let inserted = Datapoint::create(conn, &owned_description, experiment_id, &sha, &owned_status);
    finish_record(inserted, commit.is_some(), experiment_id, sha.as_str(), description, status)
}

/// Where the commit succeeded and the revision lookup then failed (or was not
/// made), the outcome is the divergence error that asks for the revision to be
/// looked up by hand, never an unexpected failure. `record_datapoint` returns
/// exactly this outcome.
pub proof fn lemma_lookup_failure_after_commit(lookup: Option<Result<Seq<char>, Seq<char>>>)
    requires
        !(lookup matches Some(Ok(_))),
    ensures
        revision_outcome(Some(Ok(())), lookup) matches Err(e) && e is Specific
            && e->Specific_1 == lookup_divergence_message(),
{
}

} // verus!
