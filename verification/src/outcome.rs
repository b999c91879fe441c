use vstd::prelude::*;
use crate::errors::UuidError;

verus! {

/// How one worker thread ended, as the join phase sees it: it ran to
/// completion, it reported a failure of its own, it panicked, or the
/// join primitive itself errored. The `String` payloads carry the
/// diagnostic detail available for the worker in question.
#[derive(Debug, PartialEq, Eq)]
pub enum WorkerOutcome {
    Completed,
    Failed(String),
    Panicked(String),
    JoinFailed(String),
}

/// The failure reported for a worker that did not complete.
pub open spec fn outcome_error(o: WorkerOutcome) -> UuidError
    recommends
        !(o is Completed),
{
    match o {
        WorkerOutcome::Completed => arbitrary(),
        WorkerOutcome::Failed(d) => UuidError::WorkerFailed(d),
        WorkerOutcome::Panicked(d) => UuidError::WorkerPanicked(d),
        WorkerOutcome::JoinFailed(d) => UuidError::ThreadJoinFailed(d),
    }
}

/// Fold the join phase's per-worker outcomes, taken in spawn order,
/// into the run's overall result: success exactly when every worker
/// completed, and otherwise the failure of the first worker that did
/// not. Later failures are not surfaced separately.
pub fn combine_outcomes(outcomes: &Vec<WorkerOutcome>) -> (r: Result<(), UuidError>)
    ensures
        r is Ok <==> (forall|i: int| 0 <= i < outcomes@.len()
            ==> (#[trigger] outcomes@[i]) is Completed),
        r matches Err(e) ==> exists|i: int| 0 <= i < outcomes@.len()
            && !((#[trigger] outcomes@[i]) is Completed)
            && (forall|j: int| 0 <= j < i ==> (#[trigger] outcomes@[j]) is Completed)
            && e == outcome_error(outcomes@[i]),
{
    let mut i: usize = 0;
    while i < outcomes.len()
        invariant
            i <= outcomes@.len(),
            forall|j: int| 0 <= j < i ==> (#[trigger] outcomes@[j]) is Completed,
        decreases outcomes@.len() - i,
    {
        match &outcomes[i] {
            WorkerOutcome::Completed => {},
            WorkerOutcome::Failed(d) => {
                return Err(UuidError::WorkerFailed(d.clone()));
            },
            WorkerOutcome::Panicked(d) => {
                return Err(UuidError::WorkerPanicked(d.clone()));
            },
            WorkerOutcome::JoinFailed(d) => {
                return Err(UuidError::ThreadJoinFailed(d.clone()));
            },
        }
        i = i + 1;
    }
    Ok(())
}

} // verus!
