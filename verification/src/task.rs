//! The per-toolchain task, as a state machine.
//!
//! One task runs all feature combinations for one toolchain version. Its
//! life is a fixed order of steps: register the workspace path with the
//! Pending-Deletion Registry, copy the project into the workspace, pin
//! dependencies if the toolchain asks for it, then run the combinations
//! one after another. The driver performs each step's outside work and
//! feeds the outcome back; the next step is decided here.
//!
//! Failure policy: a failed copy, lockfile generation or pin aborts the
//! affected task alone; a failed test run is reported and the task
//! continues with the next combination.

use vstd::prelude::*;

verus! {

/// The next piece of outside work a task asks its driver to perform.
/// Every action but `Register` touches the task's workspace.
#[derive(Clone, Copy, PartialEq, Eq, Structural, Debug)]
pub enum TaskAction {
    /// Append the workspace path to the Pending-Deletion Registry.
    Register,
    /// Copy the project tree into the workspace and drop its lock file.
    Copy,
    /// Regenerate the dependency lock file under this toolchain.
    GenerateLockfile,
    /// Force the pin at this index to its exact version.
    Pin(usize),
    /// Run the test command for the feature combination at this index.
    RunCombo(usize),
}

/// Where a task stands. `Pinned(i)` means the lock file is regenerated
/// and the first `i` pins are applied; `Tested(j)` means the first `j`
/// combinations have been attempted.
#[derive(Clone, Copy, PartialEq, Eq, Structural, Debug)]
pub enum TaskState {
    Start,
    Registered,
    Copied,
    Pinned(usize),
    Tested(usize),
    Aborted,
}

/// Whether an action touches the task's workspace.
pub open spec fn targets_workspace(a: TaskAction) -> bool {
    !(a is Register)
}

/// The next action of a task with `pins` declared pins and `sets`
/// feature combinations, or `None` when the task is over.
pub open spec fn spec_next_action(pins: usize, sets: usize, state: TaskState) -> Option<
    TaskAction,
> {
    match state {
        TaskState::Start => Some(TaskAction::Register),
        TaskState::Registered => Some(TaskAction::Copy),
        TaskState::Copied => if pins > 0 {
            Some(TaskAction::GenerateLockfile)
        } else if sets > 0 {
            Some(TaskAction::RunCombo(0))
        } else {
            None
        },
        TaskState::Pinned(i) => if i < pins {
            Some(TaskAction::Pin(i))
        } else if sets > 0 {
            Some(TaskAction::RunCombo(0))
        } else {
            None
        },
        TaskState::Tested(j) => if j < sets {
            Some(TaskAction::RunCombo(j))
        } else {
            None
        },
        TaskState::Aborted => None,
    }
}

/// The state after the pending action ran with outcome `ok`. Setup steps
/// abort the task on failure; a failed test run does not.
pub open spec fn spec_advance(pins: usize, sets: usize, state: TaskState, ok: bool) -> TaskState {
    match spec_next_action(pins, sets, state) {
        None => state,
        Some(a) => match a {
            TaskAction::Register => TaskState::Registered,
            TaskAction::Copy => if ok {
                TaskState::Copied
            } else {
                TaskState::Aborted
            },
            TaskAction::GenerateLockfile => if ok {
                TaskState::Pinned(0)
            } else {
                TaskState::Aborted
            },
            TaskAction::Pin(i) => if ok {
                TaskState::Pinned((i + 1) as usize)
            } else {
                TaskState::Aborted
            },
            TaskAction::RunCombo(j) => TaskState::Tested((j + 1) as usize),
        },
    }
}

/// A task that ends in any state but `Aborted` completed normally.
pub open spec fn task_over(pins: usize, sets: usize, state: TaskState) -> bool {
    spec_next_action(pins, sets, state) is None
}

/// The actions a task issues from `state` when the performed steps come
/// back with `outcomes`, in order; the last action is included even if
/// its outcome is still owed.
pub open spec fn task_trace(
    pins: usize,
    sets: usize,
    state: TaskState,
    outcomes: Seq<bool>,
) -> Seq<TaskAction>
    decreases outcomes.len(),
{
    match spec_next_action(pins, sets, state) {
        None => Seq::empty(),
        Some(a) => if outcomes.len() == 0 {
            seq![a]
        } else {
            seq![a] + task_trace(
                pins,
                sets,
                spec_advance(pins, sets, state, outcomes[0]),
                outcomes.drop_first(),
            )
        },
    }
}

/// The next action of a task, decided from its counts and its state.
pub fn next_action(pins: usize, sets: usize, state: &TaskState) -> (r: Option<TaskAction>)
    ensures
        r == spec_next_action(pins, sets, *state),
{
    match state {
        TaskState::Start => Some(TaskAction::Register),
        TaskState::Registered => Some(TaskAction::Copy),
        TaskState::Copied => if pins > 0 {
            Some(TaskAction::GenerateLockfile)
        } else if sets > 0 {
            Some(TaskAction::RunCombo(0))
        } else {
            None
        },
        TaskState::Pinned(i) => if *i < pins {
            Some(TaskAction::Pin(*i))
        } else if sets > 0 {
            Some(TaskAction::RunCombo(0))
        } else {
            None
        },
        TaskState::Tested(j) => if *j < sets {
            Some(TaskAction::RunCombo(*j))
        } else {
            None
        },
        TaskState::Aborted => None,
    }
}

/// Advance past the pending action, whose outside work came back with
/// outcome `ok`.
pub fn advance(pins: usize, sets: usize, state: &TaskState, ok: bool) -> (r: TaskState)
    ensures
        r == spec_advance(pins, sets, *state, ok),
{
    proof {
        lemma_action_in_bounds(pins, sets, *state);
    }
    match next_action(pins, sets, state) {
        None => *state,
        Some(a) => match a {
            TaskAction::Register => TaskState::Registered,
            TaskAction::Copy => if ok {
                TaskState::Copied
            } else {
                TaskState::Aborted
            },
            TaskAction::GenerateLockfile => if ok {
                TaskState::Pinned(0)
            } else {
                TaskState::Aborted
            },
            TaskAction::Pin(i) => if ok {
                TaskState::Pinned(i + 1)
            } else {
                TaskState::Aborted
            },
            TaskAction::RunCombo(j) => TaskState::Tested(j + 1),
        },
    }
}

/// The pending pin or combination index never leaves its bounds, so the
/// driver can index its lists with it.
pub proof fn lemma_action_in_bounds(pins: usize, sets: usize, state: TaskState)
    ensures
        spec_next_action(pins, sets, state) matches Some(a) ==> match a {
            TaskAction::Pin(i) => i < pins,
            TaskAction::RunCombo(j) => j < sets,
            _ => true,
        },
{
}

/// A task never issues `Register` twice: once it has left `Start`, no
/// later action registers.
proof fn lemma_no_register_after_start(
    pins: usize,
    sets: usize,
    state: TaskState,
    outcomes: Seq<bool>,
)
    requires
        !(state is Start),
    ensures
        forall|i: int|
            0 <= i < task_trace(pins, sets, state, outcomes).len() ==> task_trace(
                pins,
                sets,
                state,
                outcomes,
            )[i] != TaskAction::Register,
    decreases outcomes.len(),
{
    if spec_next_action(pins, sets, state) is Some && outcomes.len() > 0 {
        lemma_no_register_after_start(
            pins,
            sets,
            spec_advance(pins, sets, state, outcomes[0]),
            outcomes.drop_first(),
        );
    }
}

/// The registration guarantee: whatever the outcomes, a task's first
/// action registers its workspace path, it never registers again, and
/// every action that touches the workspace comes strictly after that
/// registration.
pub proof fn lemma_register_before_workspace_use(pins: usize, sets: usize, outcomes: Seq<bool>)
    ensures
        task_trace(pins, sets, TaskState::Start, outcomes).len() > 0,
        task_trace(pins, sets, TaskState::Start, outcomes)[0] == TaskAction::Register,
        forall|i: int|
            0 < i < task_trace(pins, sets, TaskState::Start, outcomes).len() ==> task_trace(
                pins,
                sets,
                TaskState::Start,
                outcomes,
            )[i] != TaskAction::Register,
        forall|i: int|
            0 <= i < task_trace(pins, sets, TaskState::Start, outcomes).len()
                && targets_workspace(
                task_trace(pins, sets, TaskState::Start, outcomes)[i],
            ) ==> 0 < i,
{
    let tr = task_trace(pins, sets, TaskState::Start, outcomes);
    assert(tr[0] == TaskAction::Register);
    if outcomes.len() > 0 {
        lemma_no_register_after_start(
            pins,
            sets,
            TaskState::Registered,
            outcomes.drop_first(),
        );
        assert(spec_advance(pins, sets, TaskState::Start, outcomes[0]) == TaskState::Registered);
        assert forall|i: int| 0 < i < tr.len() implies tr[i] != TaskAction::Register by {
            let rest = task_trace(pins, sets, TaskState::Registered, outcomes.drop_first());
            assert(tr[i] == rest[i - 1]);
        }
    }
}

/// A failed test run is recoverable: the task moves to the next
/// combination exactly as a successful one does, and the matrix
/// continues.
pub proof fn lemma_test_failure_continues(pins: usize, sets: usize, state: TaskState, j: usize)
    requires
        spec_next_action(pins, sets, state) == Some(TaskAction::RunCombo(j)),
        j < sets,
    ensures
        spec_advance(pins, sets, state, false) == spec_advance(pins, sets, state, true),
        spec_advance(pins, sets, state, false) == TaskState::Tested((j + 1) as usize),
        j + 1 < sets ==> spec_next_action(pins, sets, spec_advance(pins, sets, state, false))
            == Some(TaskAction::RunCombo((j + 1) as usize)),
        j + 1 == sets ==> task_over(pins, sets, spec_advance(pins, sets, state, false)),
{
}

} // verus!
