//! The decisions of a clone into a resolved directory.
//!
//! The orchestrator never touches the disk itself. It names the next action,
//! the caller performs it and reports what happened as an event. What the
//! disk does in return is modelled by `react`, and the laws at the end of
//! this file are stated over that model.

use vstd::prelude::*;
use vstd::string::StrSliceExecFns;

verus! {

/// Why an orchestration failed.
#[derive(Clone, Copy, Debug, PartialEq, Eq, Structural)]
pub enum OrchestratorError {
    /// The directory could not be created.
    DirectoryCreation,
    /// The clone failed in the given phase.
    CloneFailed { cause: crate::git::clone::Error },
    /// Another orchestration created the directory first, and it was gone
    /// again when looked for.
    ConcurrentCreationLost,
}

/// What a failed clone left in the directory it was given.
#[derive(Clone, Copy, Debug, PartialEq, Eq, Structural)]
pub enum Leftover {
    /// Nothing.
    Empty,
    /// A repository that was begun, with at most what an unfinished checkout
    /// wrote beside it: no worktree was checked out to the end.
    PartialRepository,
    /// Entries beside the repository's own directory that this clone did not
    /// write; they are not its to remove.
    Foreign,
}

/// Where an orchestration stands.
#[derive(Clone, Copy, Debug, PartialEq, Eq, Structural)]
pub enum State {
    /// The directory is known, the disk has not been asked yet.
    Resolved,
    /// The directory was not there; it is to be created.
    Absent,
    /// The directory turned out to exist when it was to be created.
    Rechecking,
    /// The directory was created by this orchestration; the clone is due.
    Cloning,
    /// The clone failed and the directory is to be removed again.
    RollingBack { cause: crate::git::clone::Error },
    /// The clone succeeded.
    Present,
    /// The directory was there already; nothing was done to it.
    AlreadyPresent,
    /// The orchestration failed.
    Failed { error: OrchestratorError },
}

/// What the caller reports back.
#[derive(Clone, Copy, Debug, PartialEq, Eq, Structural)]
pub enum Event {
    /// The directory exists.
    Found,
    /// The directory does not exist.
    Missing,
    /// The directory was created, and did not exist before.
    DirectoryCreated,
    /// The directory was not created because it exists.
    DirectoryExists,
    /// The directory could not be created for another reason.
    DirectoryRefused,
    /// The clone succeeded, worktree included.
    CloneSucceeded,
    /// The clone failed.
    CloneFailed { cause: crate::git::clone::Error, leftover: Leftover },
    /// The directory was removed.
    DirectoryRemoved,
    /// The directory could not be removed and is still there.
    DirectoryNotRemoved,
}

/// What the caller is to do next.
#[derive(Clone, Copy, Debug, PartialEq, Eq, Structural)]
pub enum Action {
    /// Report whether the directory exists.
    CheckExistence,
    /// Create the missing parents, then the directory itself, failing if it
    /// exists.
    CreateDirectory,
    /// Clone the remote into the directory.
    Clone,
    /// Remove the directory and what is in it.
    RemoveDirectory,
    /// Nothing: the orchestration is over.
    Finish,
}

/// The result of an orchestration.
#[derive(Clone, Debug, PartialEq, Eq)]
pub enum Outcome {
    /// The repository was cloned into the directory.
    Created(String),
    /// The directory existed and was left alone.
    AlreadyPresent(String),
    /// The orchestration failed.
    Failed(OrchestratorError),
}

/// Whether what a failed clone left is to be removed: anything that the
/// clone itself put there.
pub open spec fn removable(leftover: Leftover) -> bool {
    leftover != Leftover::Foreign
}

/// Whether `name` is the name of a repository's own directory, `.git`.
pub open spec fn is_repository_directory(name: Seq<char>) -> bool {
    name =~= seq!['.', 'g', 'i', 't']
}

/// What a directory with the entries `names` holds after a clone failed in
/// the phase `cause`. Without entries it is empty. A checkout that failed
/// finished no worktree, so whatever is there is the begun repository and
/// what the checkout got to write. Before the checkout nothing but the
/// repository's own directory is written, so any other entry is foreign.
pub open spec fn leftover_spec(names: Seq<String>, cause: crate::git::clone::Error) -> Leftover {
    if names.len() == 0 {
        Leftover::Empty
    } else if cause is CheckoutWorktree || forall|i: int|
        0 <= i < names.len() ==> is_repository_directory(#[trigger] names[i]@) {
        Leftover::PartialRepository
    } else {
        Leftover::Foreign
    }
}

/// Whether `name` is `.git`.
pub fn is_git_directory(name: &str) -> (r: bool)
    ensures
        r == is_repository_directory(name@),
{
    name.unicode_len() == 4 && name.get_char(0) == '.' && name.get_char(1) == 'g' && name.get_char(
        2,
    ) == 'i' && name.get_char(3) == 't'
}

/// Judges what a clone that failed in the phase `cause` left behind, by the
/// names of the entries of its directory.
pub fn classify_leftover(names: &Vec<String>, cause: crate::git::clone::Error) -> (r: Leftover)
    ensures
        r == leftover_spec(names@, cause),
{
    if names.len() == 0 {
        return Leftover::Empty;
    }
    match cause {
        crate::git::clone::Error::CheckoutWorktree => {
            return Leftover::PartialRepository;
        },
        _ => {},
    }
    let mut i: usize = 0;
    while i < names.len()
        invariant
            i <= names.len(),
            names.len() > 0,
            !(cause is CheckoutWorktree),
            forall|j: int| 0 <= j < i ==> is_repository_directory(#[trigger] names[j]@),
        decreases names.len() - i,
    {
        if !is_git_directory(names[i].as_str()) {
            return Leftover::Foreign;
        }
        i = i + 1;
    }
    Leftover::PartialRepository
}

/// Whether the orchestration is over in `state`.
pub open spec fn is_terminal(state: State) -> bool {
    state is Present || state is AlreadyPresent || state is Failed
}

/// The action that is due in `state`.
pub open spec fn action_spec(state: State) -> Action {
    match state {
        State::Resolved => Action::CheckExistence,
        State::Absent => Action::CreateDirectory,
        State::Rechecking => Action::CheckExistence,
        State::Cloning => Action::Clone,
        State::RollingBack { .. } => Action::RemoveDirectory,
        State::Present => Action::Finish,
        State::AlreadyPresent => Action::Finish,
        State::Failed { .. } => Action::Finish,
    }
}

/// The state that follows `state` on `event`; `None` where `event` answers no
/// action that is due in `state`.
pub open spec fn step_spec(state: State, event: Event) -> Option<State> {
    match (state, event) {
        (State::Resolved, Event::Found) => Some(State::AlreadyPresent),
        (State::Resolved, Event::Missing) => Some(State::Absent),
        (State::Absent, Event::DirectoryCreated) => Some(State::Cloning),
        (State::Absent, Event::DirectoryExists) => Some(State::Rechecking),
        (State::Absent, Event::DirectoryRefused) => Some(
            State::Failed { error: OrchestratorError::DirectoryCreation },
        ),
        (State::Rechecking, Event::Found) => Some(State::AlreadyPresent),
        (State::Rechecking, Event::Missing) => Some(
            State::Failed { error: OrchestratorError::ConcurrentCreationLost },
        ),
        (State::Cloning, Event::CloneSucceeded) => Some(State::Present),
        (State::Cloning, Event::CloneFailed { cause, leftover }) => if removable(leftover) {
            Some(State::RollingBack { cause })
        } else {
            Some(State::Failed { error: OrchestratorError::CloneFailed { cause } })
        },
        (State::RollingBack { cause }, Event::DirectoryRemoved) => Some(
            State::Failed { error: OrchestratorError::CloneFailed { cause } },
        ),
        (State::RollingBack { cause }, Event::DirectoryNotRemoved) => Some(
            State::Failed { error: OrchestratorError::CloneFailed { cause } },
        ),
        _ => None,
    }
}

/// The action that is due in `state`.
pub fn next_action(state: State) -> (r: Action)
    ensures
        r == action_spec(state),
{
    match state {
        State::Resolved | State::Rechecking => Action::CheckExistence,
        State::Absent => Action::CreateDirectory,
        State::Cloning => Action::Clone,
        State::RollingBack { .. } => Action::RemoveDirectory,
        State::Present | State::AlreadyPresent | State::Failed { .. } => Action::Finish,
    }
}

/// The state that follows `state` on `event`, or `None` where the event does
/// not belong there; nothing is ever cloned into, or removed from, a
/// directory that this orchestration did not create.
pub fn step(state: State, event: Event) -> (r: Option<State>)
    ensures
        r == step_spec(state, event),
{
    match state {
        State::Resolved => match event {
            Event::Found => Some(State::AlreadyPresent),
            Event::Missing => Some(State::Absent),
            _ => None,
        },
        State::Absent => match event {
            Event::DirectoryCreated => Some(State::Cloning),
            Event::DirectoryExists => Some(State::Rechecking),
            Event::DirectoryRefused => Some(
                State::Failed { error: OrchestratorError::DirectoryCreation },
            ),
            _ => None,
        },
        State::Rechecking => match event {
            Event::Found => Some(State::AlreadyPresent),
            Event::Missing => Some(
                State::Failed { error: OrchestratorError::ConcurrentCreationLost },
            ),
            _ => None,
        },
        State::Cloning => match event {
            Event::CloneSucceeded => Some(State::Present),
            Event::CloneFailed { cause, leftover } => match leftover {
                Leftover::Foreign => Some(
                    State::Failed { error: OrchestratorError::CloneFailed { cause } },
                ),
                _ => Some(State::RollingBack { cause }),
            },
            _ => None,
        },
        State::RollingBack { cause } => match event {
            Event::DirectoryRemoved | Event::DirectoryNotRemoved => Some(
                State::Failed { error: OrchestratorError::CloneFailed { cause } },
            ),
            _ => None,
        },
        _ => None,
    }
}

/// An orchestration for one destination directory.
pub struct Orchestrator {
    destination: String,
    state: State,
}

impl Orchestrator {
    /// The directory that this orchestration is about.
    pub closed spec fn destination_spec(&self) -> Seq<char> {
        self.destination@
    }

    /// Where the orchestration stands.
    pub closed spec fn state_spec(&self) -> State {
        self.state
    }

    /// What `finish` hands out in `state` for `destination`.
    pub open spec fn outcome_spec(destination: Seq<char>, state: State) -> Option<OutcomeView> {
        match state {
            State::Present => Some(OutcomeView::Created(destination)),
            State::AlreadyPresent => Some(OutcomeView::AlreadyPresent(destination)),
            State::Failed { error } => Some(OutcomeView::Failed(error)),
            _ => None,
        }
    }

    /// An orchestration that has yet to ask whether `destination` exists.
    pub fn new(destination: String) -> (r: Self)
        ensures
            r.destination_spec() == destination@,
            r.state_spec() == State::Resolved,
    {
        Orchestrator { destination, state: State::Resolved }
    }

    /// The directory that this orchestration is about.
    pub fn destination(&self) -> (r: &str)
        ensures
            r@ == self.destination_spec(),
    {
        self.destination.as_str()
    }

    /// Where the orchestration stands.
    pub fn state(&self) -> (r: State)
        ensures
            r == self.state_spec(),
    {
        self.state
    }

    /// What the caller is to do next.
    pub fn action(&self) -> (r: Action)
        ensures
            r == action_spec(self.state_spec()),
    {
        next_action(self.state)
    }

    /// Takes in what the caller reports. An event that belongs in the current
    /// state moves the orchestration on and is acknowledged with `true`; any
    /// other leaves it as it is.
    pub fn advance(&mut self, event: Event) -> (accepted: bool)
        ensures
            final(self).destination_spec() == old(self).destination_spec(),
            match step_spec(old(self).state_spec(), event) {
                Some(next) => accepted && final(self).state_spec() == next,
                None => !accepted && final(self).state_spec() == old(self).state_spec(),
            },
    {
        match step(self.state, event) {
            Some(next) => {
                self.state = next;
                true
            },
            None => false,
        }
    }

    /// The result, once the orchestration is over; `None` before.
    pub fn finish(self) -> (r: Option<Outcome>)
        ensures
            outcome_view(r) == Self::outcome_spec(self.destination_spec(), self.state_spec()),
    {
        match self.state {
            State::Present => Some(Outcome::Created(self.destination)),
            State::AlreadyPresent => Some(Outcome::AlreadyPresent(self.destination)),
            State::Failed { error } => Some(Outcome::Failed(error)),
            _ => None,
        }
    }
}

/// The view of an `Outcome`.
pub enum OutcomeView {
    Created(Seq<char>),
    AlreadyPresent(Seq<char>),
    Failed(OrchestratorError),
}

impl View for Outcome {
    type V = OutcomeView;

    open spec fn view(&self) -> OutcomeView {
        match *self {
            Outcome::Created(p) => OutcomeView::Created(p@),
            Outcome::AlreadyPresent(p) => OutcomeView::AlreadyPresent(p@),
            Outcome::Failed(e) => OutcomeView::Failed(e),
        }
    }
}

/// The view of an optional `Outcome`.
pub open spec fn outcome_view(r: Option<Outcome>) -> Option<OutcomeView> {
    match r {
        Some(o) => Some(o@),
        None => None,
    }
}

} // verus!
