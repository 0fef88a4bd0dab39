//! The experiment state machine: Idle (no pointer row) and Active (one
//! pointer row). `start` moves from Idle to Active and `stop` back; each is
//! refused in the other state, and leaves the store as it was.
use vstd::prelude::*;
use crate::models::{Experiment, StoreState, Write, DatapointRow, apply_all, delete_writes};
use crate::util::{Error, ErrorModel};

verus! {

pub open spec fn already_active_message() -> Seq<char> {
    "A science experiment is already in progress.  To record a new datapoint, run `science record`."@
}

pub open spec fn nothing_to_record_message() -> Seq<char> {
    "You need to start a science experiment first.  Run `science start`."@
}

pub open spec fn nothing_to_stop_message() -> Seq<char> {
    "There is no ongoing science experiment to stop."@
}

pub open spec fn nothing_to_analyze_message() -> Seq<char> {
    "There is no ongoing science experiment to analyze."@
}

/// The id of the current experiment, if any.
pub open spec fn current_id(current: Option<Experiment>) -> Option<int> {
    match current {
        Some(e) => Some(e.id as int),
        None => None,
    }
}

/// Whether `start` may proceed, given the current experiment.
pub open spec fn start_decision(current: Option<int>) -> Result<(), ErrorModel> {
    match current {
        Some(_) => Err(ErrorModel::Specific(None, already_active_message())),
        None => Ok(()),
    }
}

/// The experiment that `stop` removes, given the current experiment.
pub open spec fn stop_decision(current: Option<int>) -> Result<int, ErrorModel> {
    match current {
        Some(id) => Ok(id),
        None => Err(ErrorModel::Specific(None, nothing_to_stop_message())),
    }
}

/// The experiment that a datapoint is recorded for, given the current one.
pub open spec fn record_decision(current: Option<int>) -> Result<int, ErrorModel> {
    match current {
        Some(id) => Ok(id),
        None => Err(ErrorModel::Specific(None, nothing_to_record_message())),
    }
}

pub open spec fn unit_view(r: Result<(), Error>) -> Result<(), ErrorModel> {
    match r {
        Ok(()) => Ok(()),
        Err(e) => Err(e@),
    }
}

pub open spec fn id_view(r: Result<Experiment, Error>) -> Result<int, ErrorModel> {
    match r {
        Ok(x) => Ok(x.id as int),
        Err(e) => Err(e@),
    }
}

/// Refuses to start where an experiment is active.
pub fn start_gate(current: &Option<Experiment>) -> (r: Result<(), Error>)
    ensures
        unit_view(r) == start_decision(current_id(*current)),
{
    match current {
        Some(_) => Err(
            Error::Specific(
                None,
                String::from_str(
                    "A science experiment is already in progress.  To record a new datapoint, run `science record`.",
                ),
            ),
        ),
        None => Ok(()),
    }
}

/// The experiment to stop; refused where none is active.
pub fn stop_gate(current: Option<Experiment>) -> (r: Result<Experiment, Error>)
    ensures
        id_view(r) == stop_decision(current_id(current)),
{
    match current {
        Some(e) => Ok(e),
        None => Err(
            Error::Specific(None, String::from_str("There is no ongoing science experiment to stop.")),
        ),
    }
}

/// The experiment to record for; refused where none is active.
pub fn record_gate(current: Option<Experiment>) -> (r: Result<Experiment, Error>)
    ensures
        id_view(r) == record_decision(current_id(current)),
{
    match current {
        Some(e) => Ok(e),
        None => Err(
            Error::Specific(
                None,
                String::from_str("You need to start a science experiment first.  Run `science start`."),
            ),
        ),
    }
}

pub open spec fn initial_state() -> StoreState {
    StoreState {
        experiments: Set::empty(),
        current: Seq::empty(),
        datapoints: Seq::empty(),
        next_id: 1,
    }
}

/// At most one pointer row, and it names an existing experiment.
pub open spec fn well_formed(s: StoreState) -> bool {
    &&& s.current.len() <= 1
    &&& forall|i: int| 0 <= i < s.current.len() ==> s.experiments.contains(#[trigger] s.current[i])
    &&& forall|id: int| #[trigger] s.experiments.contains(id) ==> id < s.next_id
}

pub open spec fn pointer(s: StoreState) -> Option<int> {
    if s.current.len() > 0 {
        Some(s.current[0])
    } else {
        None
    }
}

/// The writes of a start, in one transaction: the experiment row (which gets
/// id `id`), the pointer row naming it, and its first datapoint. `start`
/// makes them through `Experiment::insert_statement`,
/// `Experiment::make_current_statement` and `Datapoint::insert_statement`.
pub open spec fn start_writes(
    id: int,
    description: Seq<char>,
    status: Seq<char>,
    sha: Seq<char>,
) -> Seq<Write> {
    seq![
        Write::InsertExperiment,
        Write::MakeCurrent(id),
        Write::InsertDatapoint(
            DatapointRow { experiment_id: id, description, sha, status },
        ),
    ]
}

/// `start`: where `start_gate` allows it, the writes of a start.
pub open spec fn start_step(
    s: StoreState,
    description: Seq<char>,
    status: Seq<char>,
    sha: Seq<char>,
) -> (StoreState, Result<(), ErrorModel>) {
    match start_decision(pointer(s)) {
        Ok(()) => (apply_all(s, start_writes(s.next_id, description, status, sha)), Ok(())),
        Err(e) => (s, Err(e)),
    }
}

/// `stop`: where `stop_gate` allows it, in one transaction, the writes of
/// `Experiment::delete_statements` for the current experiment.
pub open spec fn stop_step(s: StoreState) -> (StoreState, Result<(), ErrorModel>) {
    match stop_decision(pointer(s)) {
        Ok(id) => (apply_all(s, delete_writes(id)), Ok(())),
        Err(e) => (s, Err(e)),
    }
}

pub enum Verb {
    Start { description: Seq<char>, status: Seq<char>, sha: Seq<char> },
    Stop,
}

pub open spec fn step(s: StoreState, v: Verb) -> (StoreState, Result<(), ErrorModel>) {
    match v {
        Verb::Start { description, status, sha } => start_step(s, description, status, sha),
        Verb::Stop => stop_step(s),
    }
}

/// The state after `verbs`, from the first run on.
pub open spec fn run_verbs(verbs: Seq<Verb>) -> StoreState
    decreases verbs.len(),
{
    if verbs.len() == 0 {
        initial_state()
    } else {
        step(run_verbs(verbs.drop_last()), verbs.last()).0
    }
}

proof fn lemma_start_effect(s: StoreState, description: Seq<char>, status: Seq<char>, sha: Seq<char>)
    ensures
        ({
            let t = apply_all(s, start_writes(s.next_id, description, status, sha));
            &&& t.experiments == s.experiments.insert(s.next_id)
            &&& t.current == s.current.push(s.next_id)
            &&& t.datapoints == s.datapoints.push(
                DatapointRow { experiment_id: s.next_id, description, sha, status },
            )
            &&& t.next_id == s.next_id + 1
        }),
{
    let ws = start_writes(s.next_id, description, status, sha);
    assert(ws.drop_last().drop_last().drop_last() =~= Seq::<Write>::empty());
    assert(ws.drop_last().drop_last().last() == Write::InsertExperiment);
    assert(ws.drop_last().last() == Write::MakeCurrent(s.next_id));
    reveal_with_fuel(apply_all, 4);
}

proof fn lemma_stop_effect(s: StoreState, id: int)
    requires
        s.current == seq![id],
    ensures
        ({
            let t = apply_all(s, delete_writes(id));
            &&& t.experiments == s.experiments.remove(id)
            &&& t.current.len() == 0
            &&& t.datapoints == s.datapoints
            &&& t.next_id == s.next_id
        }),
{
    let ws = delete_writes(id);
    assert(ws.drop_last().drop_last() =~= Seq::<Write>::empty());
    assert(ws.drop_last().last() == Write::DeletePointer(id));
    reveal_with_fuel(apply_all, 3);
    assert(seq![id].filter(|x: int| x != id) =~= Seq::<int>::empty()) by {
        reveal_with_fuel(Seq::filter, 2);
    }
}

proof fn lemma_step_well_formed(s: StoreState, v: Verb)
    requires
        well_formed(s),
    ensures
        well_formed(step(s, v).0),
{
    match v {
        Verb::Start { description, status, sha } => {
            if s.current.len() == 0 {
                lemma_start_effect(s, description, status, sha);
                assert(step(s, v).0.current =~= seq![s.next_id]);
            }
        },
        Verb::Stop => {
            if s.current.len() > 0 {
                let id = s.current[0];
                assert(s.current =~= seq![id]);
                lemma_stop_effect(s, id);
            }
        },
    }
}

/// Whatever sequence of `start` and `stop` ran, at most one pointer row
/// exists and it names an existing experiment; then `start` is refused with
/// the invariant-violation error exactly where a pointer row exists, `stop`
/// exactly where none does, and a refused verb leaves the rows as they were.
pub proof fn lemma_single_active(verbs: Seq<Verb>)
    ensures
        well_formed(run_verbs(verbs)),
        run_verbs(verbs).current.len() <= 1,
        run_verbs(verbs).current.len() > 0 ==> forall|d: Seq<char>, st: Seq<char>, sh: Seq<char>|
            #[trigger] start_step(run_verbs(verbs), d, st, sh) == (
                run_verbs(verbs),
                Err::<(), ErrorModel>(ErrorModel::Specific(None, already_active_message())),
            ),
        run_verbs(verbs).current.len() == 0 ==> stop_step(run_verbs(verbs)) == (
            run_verbs(verbs),
            Err::<(), ErrorModel>(ErrorModel::Specific(None, nothing_to_stop_message())),
        ),
    decreases verbs.len(),
{
    if verbs.len() > 0 {
        lemma_single_active(verbs.drop_last());
        lemma_step_well_formed(run_verbs(verbs.drop_last()), verbs.last());
    }
}

/// A start where none is active adds exactly the new experiment, the pointer
/// to it, and one datapoint with the description, status and revision given.
pub proof fn lemma_start_adds_rows(s: StoreState, description: Seq<char>, status: Seq<char>, sha: Seq<char>)
    requires
        well_formed(s),
        s.current.len() == 0,
    ensures
        start_step(s, description, status, sha).1 is Ok,
        start_step(s, description, status, sha).0.experiments == s.experiments.insert(s.next_id),
        !s.experiments.contains(s.next_id),
        start_step(s, description, status, sha).0.current == seq![s.next_id],
        start_step(s, description, status, sha).0.datapoints == s.datapoints.push(
            DatapointRow { experiment_id: s.next_id, description, sha, status },
        ),
{
    lemma_start_effect(s, description, status, sha);
    assert(s.current.push(s.next_id) =~= seq![s.next_id]);
}

/// Stopping the current experiment removes both its row and the pointer row,
/// neither without the other, and leaves every datapoint.
pub proof fn lemma_stop_removes_both(s: StoreState)
    requires
        well_formed(s),
        s.current.len() > 0,
    ensures
        stop_step(s).1 is Ok,
        !stop_step(s).0.experiments.contains(s.current[0]),
        stop_step(s).0.current.len() == 0,
        stop_step(s).0.experiments == s.experiments.remove(s.current[0]),
        stop_step(s).0.datapoints == s.datapoints,
{
    let id = s.current[0];
    assert(s.current =~= seq![id]);
    lemma_stop_effect(s, id);
}

} // verus!
