use vstd::prelude::*;

verus! {

/// How one supervised task ended: the global responder and the announcers
/// either run forever, finish cleanly, or fail.
#[derive(Clone, Copy, Debug, PartialEq, Eq, Structural)]
pub enum TaskOutcome {
    Success,
    Failure,
}

/// The supervisor's fail-fast rule. Given the outcomes seen so far, in
/// completion order, picks the first failure: as soon as any task fails,
/// that failure becomes the process's terminal error; with no failure the
/// process keeps waiting (or, once every task is done, ends cleanly).
pub fn first_failure_index(outcomes: &Vec<TaskOutcome>) -> (r: Option<usize>)
    ensures
        match r {
            Some(i) => {
                &&& i < outcomes@.len()
                &&& outcomes@[i as int] == TaskOutcome::Failure
                &&& forall|j: int| 0 <= j < i ==> outcomes@[j] == TaskOutcome::Success
            },
            None => forall|j: int|
                0 <= j < outcomes@.len() ==> outcomes@[j] == TaskOutcome::Success,
        },
{
    let mut i: usize = 0;
    while i < outcomes.len()
        invariant
            i <= outcomes@.len(),
            forall|j: int| 0 <= j < i ==> outcomes@[j] == TaskOutcome::Success,
        decreases outcomes@.len() - i,
    {
        if outcomes[i] == TaskOutcome::Failure {
            return Some(i);
        }
        i += 1;
    }
    None
}

} // verus!
