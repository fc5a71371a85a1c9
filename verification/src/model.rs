//! A model of the destination directory on disk, and what holds of
//! orchestrations that run against it.
//!
//! The model knows one directory. It is vacant, or it exists and holds what
//! a clone left there, or it holds a finished repository. `react` says how it
//! answers each action; creation is exclusive, as on a real file system.

use crate::git::clone::Error;
use crate::orchestrator::{
    action_spec, is_terminal, leftover_spec, removable, step_spec, Action, Event, Leftover,
    OrchestratorError, State,
};
use vstd::prelude::*;

verus! {

/// What is at the destination.
pub enum Slot {
    /// Nothing.
    Vacant,
    /// A directory without a finished clone in it.
    Directory { leftover: Leftover },
    /// A repository with its worktree.
    Repository,
}

/// What will go wrong for one orchestration, if anything.
pub struct Fate {
    /// The directory cannot be created although nothing is in its place.
    pub creation_refused: bool,
    /// The clone fails in this phase and leaves this behind.
    pub clone_failure: Option<(Error, Leftover)>,
    /// The directory cannot be removed again.
    pub removal_refused: bool,
}

/// A fate in which nothing goes wrong.
pub open spec fn fair(fate: Fate) -> bool {
    !fate.creation_refused && fate.clone_failure is None && !fate.removal_refused
}

/// How the disk answers `action`: what is at the destination afterwards, and
/// the event that the caller reports. `Finish` asks nothing of the disk.
pub open spec fn react(slot: Slot, action: Action, fate: Fate) -> Option<(Slot, Event)> {
    match action {
        Action::CheckExistence => Some(
            (
                slot,
                if slot is Vacant {
                    Event::Missing
                } else {
                    Event::Found
                },
            ),
        ),
        Action::CreateDirectory => if !(slot is Vacant) {
            Some((slot, Event::DirectoryExists))
        } else if fate.creation_refused {
            Some((slot, Event::DirectoryRefused))
        } else {
            Some((Slot::Directory { leftover: Leftover::Empty }, Event::DirectoryCreated))
        },
        Action::Clone => match fate.clone_failure {
            None => Some((Slot::Repository, Event::CloneSucceeded)),
            Some((cause, leftover)) => Some(
                (Slot::Directory { leftover }, Event::CloneFailed { cause, leftover }),
            ),
        },
        Action::RemoveDirectory => if fate.removal_refused {
            Some((slot, Event::DirectoryNotRemoved))
        } else {
            Some((Slot::Vacant, Event::DirectoryRemoved))
        },
        Action::Finish => None,
    }
}

/// One move of an orchestration: the action that is due is performed and the
/// event taken in. An orchestration that is over stays as it is.
pub open spec fn advance_spec(slot: Slot, state: State, fate: Fate) -> (Slot, State) {
    match react(slot, action_spec(state), fate) {
        Some((after, event)) => match step_spec(state, event) {
            Some(next) => (after, next),
            None => (slot, state),
        },
        None => (slot, state),
    }
}

/// `moves` moves of one orchestration.
pub open spec fn run_spec(slot: Slot, state: State, fate: Fate, moves: nat) -> (Slot, State)
    decreases moves,
{
    if moves == 0 {
        (slot, state)
    } else {
        let (after, next) = advance_spec(slot, state, fate);
        run_spec(after, next, fate, (moves - 1) as nat)
    }
}

/// Two orchestrations for one destination, moving in the order that
/// `schedule` gives: `true` lets the first move, `false` the second.
pub open spec fn interleave(
    slot: Slot,
    first: State,
    second: State,
    fate_first: Fate,
    fate_second: Fate,
    schedule: Seq<bool>,
) -> (Slot, State, State)
    decreases schedule.len(),
{
    if schedule.len() == 0 {
        (slot, first, second)
    } else if schedule[0] {
        let (after, next) = advance_spec(slot, first, fate_first);
        interleave(after, next, second, fate_first, fate_second, schedule.drop_first())
    } else {
        let (after, next) = advance_spec(slot, second, fate_second);
        interleave(after, first, next, fate_first, fate_second, schedule.drop_first())
    }
}

/// Whether an orchestration in `state` has created the directory and is not
/// done with it.
pub open spec fn owns(state: State) -> bool {
    state is Cloning || state is RollingBack
}

/// What holds of two orchestrations for one destination at every moment: at
/// most one owns the directory, which then exists, and a clone that was
/// reported as present is on disk and is the only one.
pub open spec fn exclusive(slot: Slot, first: State, second: State) -> bool {
    &&& !(owns(first) && owns(second))
    &&& owns(first) || owns(second) ==> !(slot is Vacant)
    &&& first is Present ==> slot is Repository && !owns(second) && !(second is Present)
    &&& second is Present ==> slot is Repository && !owns(first)
}

/// What holds at every moment where nothing goes wrong for either.
pub open spec fn settled(slot: Slot, first: State, second: State) -> bool {
    let early = |s: State| s is Resolved || s is Absent;
    let waiting = |s: State| s is Resolved || s is Absent || s is Rechecking || s is AlreadyPresent;
    match slot {
        Slot::Vacant => early(first) && early(second),
        Slot::Directory { leftover } => (first is Cloning && waiting(second)) || (second is Cloning
            && waiting(first)),
        Slot::Repository => (first is Present && waiting(second)) || (second is Present && waiting(
            first,
        )),
    }
}

/// Five moves bring every orchestration to its end, whatever is on disk and
/// whatever goes wrong, and a clone is reported as present only where the
/// repository is on disk.
pub proof fn lemma_run_ends(slot: Slot, fate: Fate)
    ensures
        is_terminal(run_spec(slot, State::Resolved, fate, 5).1),
        run_spec(slot, State::Resolved, fate, 5).1 is Present ==> run_spec(
            slot,
            State::Resolved,
            fate,
            5,
        ).0 is Repository,
{
    reveal_with_fuel(run_spec, 6);
}

/// Where nothing is at the destination and nothing goes wrong, the clone is
/// made and reported as present.
pub proof fn lemma_first_run_creates(fate: Fate)
    requires
        fair(fate),
    ensures
        run_spec(Slot::Vacant, State::Resolved, fate, 5) == (Slot::Repository, State::Present),
{
    reveal_with_fuel(run_spec, 6);
}

/// Where the destination exists, the orchestration ends after the one look
/// at the disk, reports it as already present and leaves it untouched.
pub proof fn lemma_existing_left_alone(slot: Slot, fate: Fate)
    requires
        !(slot is Vacant),
    ensures
        action_spec(State::Resolved) == Action::CheckExistence,
        advance_spec(slot, State::Resolved, fate) == (slot, State::AlreadyPresent),
        action_spec(State::AlreadyPresent) == Action::Finish,
        run_spec(slot, State::Resolved, fate, 5) == (slot, State::AlreadyPresent),
{
    reveal_with_fuel(run_spec, 6);
}

/// Cloning twice: after a first run that created the clone, a second run
/// reports it as already present and changes nothing on disk.
pub proof fn lemma_second_run_already_present(first: Fate, second: Fate)
    requires
        fair(first),
    ensures
        ({
            let (disk, _) = run_spec(Slot::Vacant, State::Resolved, first, 5);
            run_spec(disk, State::Resolved, second, 5) == (disk, State::AlreadyPresent)
        }),
{
    lemma_first_run_creates(first);
    lemma_existing_left_alone(Slot::Repository, second);
}

/// Rollback: where the clone fails and nothing foreign is in its directory,
/// the directory that was created for it is gone again at the end, and the
/// failure is reported with its phase.
pub proof fn lemma_failed_clone_rolled_back(fate: Fate)
    requires
        !fate.creation_refused,
        !fate.removal_refused,
        fate.clone_failure matches Some((_, leftover)) && removable(leftover),
    ensures
        run_spec(Slot::Vacant, State::Resolved, fate, 5) == (
            Slot::Vacant,
            State::Failed {
                error: OrchestratorError::CloneFailed { cause: fate.clone_failure.unwrap().0 },
            },
        ),
{
    reveal_with_fuel(run_spec, 6);
}

/// Where foreign entries are in the directory of the failed clone, the
/// directory stays.
pub proof fn lemma_foreign_kept(fate: Fate)
    requires
        !fate.creation_refused,
        fate.clone_failure matches Some((_, leftover)) && !removable(leftover),
    ensures
        run_spec(Slot::Vacant, State::Resolved, fate, 5) == (
            Slot::Directory { leftover: Leftover::Foreign },
            State::Failed {
                error: OrchestratorError::CloneFailed { cause: fate.clone_failure.unwrap().0 },
            },
        ),
{
    reveal_with_fuel(run_spec, 6);
}

/// A clone that failed while checking out is rolled back whatever the
/// entries of its directory: with removal working, the directory is gone at
/// the end.
pub proof fn lemma_failed_checkout_rolled_back(names: Seq<String>, fate: Fate)
    requires
        !fate.creation_refused,
        !fate.removal_refused,
        fate.clone_failure == Some(
            (Error::CheckoutWorktree, leftover_spec(names, Error::CheckoutWorktree)),
        ),
    ensures
        run_spec(Slot::Vacant, State::Resolved, fate, 5) == (
            Slot::Vacant,
            State::Failed {
                error: OrchestratorError::CloneFailed { cause: Error::CheckoutWorktree },
            },
        ),
{
    lemma_failed_clone_rolled_back(fate);
}

/// However two orchestrations for one destination take turns, `exclusive`
/// keeps holding.
pub proof fn lemma_interleave_exclusive(
    slot: Slot,
    first: State,
    second: State,
    fate_first: Fate,
    fate_second: Fate,
    schedule: Seq<bool>,
)
    requires
        exclusive(slot, first, second),
    ensures
        ({
            let (disk, a, b) = interleave(slot, first, second, fate_first, fate_second, schedule);
            exclusive(disk, a, b)
        }),
    decreases schedule.len(),
{
    if schedule.len() > 0 {
        if schedule[0] {
            let (after, next) = advance_spec(slot, first, fate_first);
            lemma_interleave_exclusive(
                after,
                next,
                second,
                fate_first,
                fate_second,
                schedule.drop_first(),
            );
        } else {
            let (after, next) = advance_spec(slot, second, fate_second);
            lemma_interleave_exclusive(
                after,
                first,
                next,
                fate_first,
                fate_second,
                schedule.drop_first(),
            );
        }
    }
}

/// Where nothing goes wrong, `settled` keeps holding however the two take
/// turns.
pub proof fn lemma_interleave_settled(
    slot: Slot,
    first: State,
    second: State,
    fate_first: Fate,
    fate_second: Fate,
    schedule: Seq<bool>,
)
    requires
        fair(fate_first),
        fair(fate_second),
        settled(slot, first, second),
    ensures
        ({
            let (disk, a, b) = interleave(slot, first, second, fate_first, fate_second, schedule);
            settled(disk, a, b)
        }),
    decreases schedule.len(),
{
    if schedule.len() > 0 {
        if schedule[0] {
            let (after, next) = advance_spec(slot, first, fate_first);
            lemma_interleave_settled(
                after,
                next,
                second,
                fate_first,
                fate_second,
                schedule.drop_first(),
            );
        } else {
            let (after, next) = advance_spec(slot, second, fate_second);
            lemma_interleave_settled(
                after,
                first,
                next,
                fate_first,
                fate_second,
                schedule.drop_first(),
            );
        }
    }
}

/// Two orchestrations that start on a vacant destination never both report
/// the clone as created, in whatever order they move and whatever goes
/// wrong; and one that reports it has the repository on disk.
pub proof fn lemma_at_most_one_creates(fate_first: Fate, fate_second: Fate, schedule: Seq<bool>)
    ensures
        ({
            let (disk, a, b) = interleave(
                Slot::Vacant,
                State::Resolved,
                State::Resolved,
                fate_first,
                fate_second,
                schedule,
            );
            &&& !(a is Present && b is Present)
            &&& a is Present || b is Present ==> disk is Repository
        }),
{
    lemma_interleave_exclusive(
        Slot::Vacant,
        State::Resolved,
        State::Resolved,
        fate_first,
        fate_second,
        schedule,
    );
}

/// Two orchestrations that start on a vacant destination, with nothing going
/// wrong: once both are over, exactly one reports the clone as created and
/// the other as already present, and the repository is on disk.
pub proof fn lemma_one_creates_one_finds(fate_first: Fate, fate_second: Fate, schedule: Seq<bool>)
    requires
        fair(fate_first),
        fair(fate_second),
        ({
            let (_, a, b) = interleave(
                Slot::Vacant,
                State::Resolved,
                State::Resolved,
                fate_first,
                fate_second,
                schedule,
            );
            is_terminal(a) && is_terminal(b)
        }),
    ensures
        ({
            let (disk, a, b) = interleave(
                Slot::Vacant,
                State::Resolved,
                State::Resolved,
                fate_first,
                fate_second,
                schedule,
            );
            &&& disk is Repository
            &&& (a is Present && b is AlreadyPresent) || (a is AlreadyPresent && b is Present)
        }),
{
    lemma_interleave_settled(
        Slot::Vacant,
        State::Resolved,
        State::Resolved,
        fate_first,
        fate_second,
        schedule,
    );
}

} // verus!
