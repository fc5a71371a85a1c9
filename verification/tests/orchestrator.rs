use rcm::git::clone::Error as ClonePhase;
use rcm::orchestrator::{
    classify_leftover, is_git_directory, next_action, step, Action, Event, Leftover, Orchestrator,
    OrchestratorError, Outcome, State,
};

const ALL_EVENTS: [Event; 11] = [
    Event::Found,
    Event::Missing,
    Event::DirectoryCreated,
    Event::DirectoryExists,
    Event::DirectoryRefused,
    Event::CloneSucceeded,
    Event::CloneFailed { cause: ClonePhase::PrepareClone, leftover: Leftover::Empty },
    Event::CloneFailed { cause: ClonePhase::FetchAndCheckout, leftover: Leftover::PartialRepository },
    Event::CloneFailed { cause: ClonePhase::FetchAndCheckout, leftover: Leftover::Foreign },
    Event::DirectoryRemoved,
    Event::DirectoryNotRemoved,
];

/// A destination on disk, as far as an orchestration can tell.
#[derive(Clone, Copy, Debug, PartialEq)]
enum Disk {
    Vacant,
    Directory(Leftover),
    Repository,
}

/// Performs one action on the disk and reports the event.
fn perform(disk: &mut Disk, action: Action, failure: Option<(ClonePhase, Leftover)>) -> Event {
    match action {
        Action::CheckExistence => {
            if *disk == Disk::Vacant {
                Event::Missing
            } else {
                Event::Found
            }
        }
        Action::CreateDirectory => {
            if *disk == Disk::Vacant {
                *disk = Disk::Directory(Leftover::Empty);
                Event::DirectoryCreated
            } else {
                Event::DirectoryExists
            }
        }
        Action::Clone => match failure {
            None => {
                *disk = Disk::Repository;
                Event::CloneSucceeded
            }
            Some((cause, leftover)) => {
                *disk = Disk::Directory(leftover);
                Event::CloneFailed { cause, leftover }
            }
        },
        Action::RemoveDirectory => {
            *disk = Disk::Vacant;
            Event::DirectoryRemoved
        }
        Action::Finish => unreachable!(),
    }
}

fn orchestrate(disk: &mut Disk, failure: Option<(ClonePhase, Leftover)>) -> (Outcome, Vec<Action>) {
    let mut o = Orchestrator::new("/r/h/p".to_string());
    let mut actions = Vec::new();
    while o.action() != Action::Finish {
        let action = o.action();
        actions.push(action);
        assert!(o.advance(perform(disk, action, failure)));
    }
    (o.finish().unwrap(), actions)
}

#[test]
fn absent_directory_is_created_and_cloned() {
    let mut disk = Disk::Vacant;
    let (outcome, actions) = orchestrate(&mut disk, None);
    assert_eq!(outcome, Outcome::Created("/r/h/p".to_string()));
    assert_eq!(actions, vec![Action::CheckExistence, Action::CreateDirectory, Action::Clone]);
    assert_eq!(disk, Disk::Repository);
}

#[test]
fn second_clone_reports_already_present() {
    let mut disk = Disk::Vacant;
    let (first, _) = orchestrate(&mut disk, None);
    assert_eq!(first, Outcome::Created("/r/h/p".to_string()));
    let before = disk;
    let (second, actions) = orchestrate(&mut disk, None);
    assert_eq!(second, Outcome::AlreadyPresent("/r/h/p".to_string()));
    assert_eq!(actions, vec![Action::CheckExistence]);
    assert_eq!(disk, before);
}

#[test]
fn failed_clone_is_rolled_back() {
    for leftover in [Leftover::Empty, Leftover::PartialRepository] {
        let mut disk = Disk::Vacant;
        let (outcome, actions) =
            orchestrate(&mut disk, Some((ClonePhase::FetchAndCheckout, leftover)));
        assert_eq!(
            outcome,
            Outcome::Failed(OrchestratorError::CloneFailed { cause: ClonePhase::FetchAndCheckout })
        );
        assert_eq!(
            actions,
            vec![
                Action::CheckExistence,
                Action::CreateDirectory,
                Action::Clone,
                Action::RemoveDirectory
            ]
        );
        assert_eq!(disk, Disk::Vacant);
    }
}

#[test]
fn foreign_entries_are_not_removed() {
    let mut disk = Disk::Vacant;
    let (outcome, actions) =
        orchestrate(&mut disk, Some((ClonePhase::FetchAndCheckout, Leftover::Foreign)));
    assert_eq!(
        outcome,
        Outcome::Failed(OrchestratorError::CloneFailed { cause: ClonePhase::FetchAndCheckout })
    );
    assert_eq!(actions, vec![Action::CheckExistence, Action::CreateDirectory, Action::Clone]);
    assert_eq!(disk, Disk::Directory(Leftover::Foreign));
}

#[test]
fn checkout_that_failed_midway_is_rolled_back() {
    let names = vec![".git".to_string(), "README.md".to_string(), "src".to_string()];
    let leftover = classify_leftover(&names, ClonePhase::CheckoutWorktree);
    assert_eq!(leftover, Leftover::PartialRepository);
    let mut disk = Disk::Vacant;
    let (outcome, actions) = orchestrate(&mut disk, Some((ClonePhase::CheckoutWorktree, leftover)));
    assert_eq!(
        outcome,
        Outcome::Failed(OrchestratorError::CloneFailed { cause: ClonePhase::CheckoutWorktree })
    );
    assert_eq!(
        actions,
        vec![
            Action::CheckExistence,
            Action::CreateDirectory,
            Action::Clone,
            Action::RemoveDirectory
        ]
    );
    assert_eq!(disk, Disk::Vacant);
    // the next run starts afresh
    let (again, _) = orchestrate(&mut disk, None);
    assert_eq!(again, Outcome::Created("/r/h/p".to_string()));
}

#[test]
fn failed_removal_still_reports_the_clone_failure() {
    let cause = ClonePhase::FetchAndCheckout;
    let mut o = Orchestrator::new("d".to_string());
    assert!(o.advance(Event::Missing));
    assert!(o.advance(Event::DirectoryCreated));
    assert!(o.advance(Event::CloneFailed { cause, leftover: Leftover::PartialRepository }));
    assert_eq!(o.action(), Action::RemoveDirectory);
    assert!(o.advance(Event::DirectoryNotRemoved));
    assert_eq!(o.action(), Action::Finish);
    assert_eq!(o.finish(), Some(Outcome::Failed(OrchestratorError::CloneFailed { cause })));
}

#[test]
fn two_racing_orchestrations_create_once() {
    let mut disk = Disk::Vacant;
    let mut a = Orchestrator::new("/r/h/p".to_string());
    let mut b = Orchestrator::new("/r/h/p".to_string());
    // both look before either creates
    assert!(a.advance(perform(&mut disk, a.action(), None)));
    assert!(b.advance(perform(&mut disk, b.action(), None)));
    assert_eq!(a.state(), State::Absent);
    assert_eq!(b.state(), State::Absent);
    // both try to create
    assert!(a.advance(perform(&mut disk, a.action(), None)));
    assert!(b.advance(perform(&mut disk, b.action(), None)));
    assert_eq!(a.state(), State::Cloning);
    assert_eq!(b.state(), State::Rechecking);
    assert_eq!(b.action(), Action::CheckExistence);
    assert!(a.advance(perform(&mut disk, a.action(), None)));
    assert!(b.advance(perform(&mut disk, b.action(), None)));
    assert_eq!(a.finish(), Some(Outcome::Created("/r/h/p".to_string())));
    assert_eq!(b.finish(), Some(Outcome::AlreadyPresent("/r/h/p".to_string())));
    assert_eq!(disk, Disk::Repository);
}

#[test]
fn lost_race_with_vanished_directory_is_reported() {
    let mut o = Orchestrator::new("d".to_string());
    assert!(o.advance(Event::Missing));
    assert!(o.advance(Event::DirectoryExists));
    assert!(o.advance(Event::Missing));
    assert_eq!(o.finish(), Some(Outcome::Failed(OrchestratorError::ConcurrentCreationLost)));
}

#[test]
fn refused_creation_fails() {
    let mut o = Orchestrator::new("d".to_string());
    assert!(o.advance(Event::Missing));
    assert_eq!(o.action(), Action::CreateDirectory);
    assert!(o.advance(Event::DirectoryRefused));
    assert_eq!(o.action(), Action::Finish);
    assert_eq!(o.state(), State::Failed { error: OrchestratorError::DirectoryCreation });
    assert_eq!(o.finish(), Some(Outcome::Failed(OrchestratorError::DirectoryCreation)));
}

#[test]
fn step_table() {
    let cause = ClonePhase::PrepareClone;
    assert_eq!(step(State::Resolved, Event::Found), Some(State::AlreadyPresent));
    assert_eq!(step(State::Resolved, Event::Missing), Some(State::Absent));
    assert_eq!(step(State::Absent, Event::DirectoryCreated), Some(State::Cloning));
    assert_eq!(step(State::Absent, Event::DirectoryExists), Some(State::Rechecking));
    assert_eq!(step(State::Rechecking, Event::Found), Some(State::AlreadyPresent));
    assert_eq!(step(State::Cloning, Event::CloneSucceeded), Some(State::Present));
    assert_eq!(
        step(State::Cloning, Event::CloneFailed { cause, leftover: Leftover::Empty }),
        Some(State::RollingBack { cause })
    );
    assert_eq!(
        step(State::Cloning, Event::CloneFailed { cause, leftover: Leftover::PartialRepository }),
        Some(State::RollingBack { cause })
    );
    assert_eq!(
        step(State::Cloning, Event::CloneFailed { cause, leftover: Leftover::Foreign }),
        Some(State::Failed { error: OrchestratorError::CloneFailed { cause } })
    );
    assert_eq!(
        step(State::RollingBack { cause }, Event::DirectoryRemoved),
        Some(State::Failed { error: OrchestratorError::CloneFailed { cause } })
    );
    assert_eq!(
        step(State::RollingBack { cause }, Event::DirectoryNotRemoved),
        Some(State::Failed { error: OrchestratorError::CloneFailed { cause } })
    );
}

#[test]
fn finished_states_take_no_event() {
    for state in [
        State::Present,
        State::AlreadyPresent,
        State::Failed { error: OrchestratorError::DirectoryCreation },
    ] {
        assert_eq!(next_action(state), Action::Finish);
        for event in ALL_EVENTS {
            assert_eq!(step(state, event), None);
        }
    }
}

#[test]
fn events_out_of_place_are_refused() {
    assert_eq!(step(State::Resolved, Event::CloneSucceeded), None);
    assert_eq!(step(State::Resolved, Event::DirectoryCreated), None);
    assert_eq!(step(State::Absent, Event::Found), None);
    assert_eq!(step(State::Cloning, Event::DirectoryRemoved), None);
    assert_eq!(step(State::Rechecking, Event::DirectoryExists), None);
    let mut o = Orchestrator::new("d".to_string());
    assert!(!o.advance(Event::CloneSucceeded));
    assert_eq!(o.state(), State::Resolved);
    assert_eq!(o.destination(), "d");
    assert_eq!(o.finish(), None);
}

#[test]
fn actions_by_state() {
    assert_eq!(next_action(State::Resolved), Action::CheckExistence);
    assert_eq!(next_action(State::Absent), Action::CreateDirectory);
    assert_eq!(next_action(State::Rechecking), Action::CheckExistence);
    assert_eq!(next_action(State::Cloning), Action::Clone);
    assert_eq!(
        next_action(State::RollingBack { cause: ClonePhase::PrepareClone }),
        Action::RemoveDirectory
    );
}

#[test]
fn leftover_by_entries_and_phase() {
    let none: Vec<String> = Vec::new();
    let only_git = vec![".git".to_string()];
    let with_files = vec![".git".to_string(), "README.md".to_string()];
    for cause in
        [ClonePhase::PrepareClone, ClonePhase::FetchAndCheckout, ClonePhase::CheckoutWorktree]
    {
        assert_eq!(classify_leftover(&none, cause), Leftover::Empty);
        assert_eq!(classify_leftover(&only_git, cause), Leftover::PartialRepository);
    }
    assert_eq!(classify_leftover(&with_files, ClonePhase::PrepareClone), Leftover::Foreign);
    assert_eq!(classify_leftover(&with_files, ClonePhase::FetchAndCheckout), Leftover::Foreign);
    assert_eq!(
        classify_leftover(&with_files, ClonePhase::CheckoutWorktree),
        Leftover::PartialRepository
    );
    assert_eq!(
        classify_leftover(&vec!["src".to_string()], ClonePhase::FetchAndCheckout),
        Leftover::Foreign
    );
    assert_eq!(
        classify_leftover(&vec![".gitignore".to_string()], ClonePhase::PrepareClone),
        Leftover::Foreign
    );
    assert_eq!(
        classify_leftover(&vec!["src".to_string()], ClonePhase::CheckoutWorktree),
        Leftover::PartialRepository
    );
    assert!(is_git_directory(".git"));
    assert!(!is_git_directory(".gi"));
    assert!(!is_git_directory("xgit"));
    assert!(!is_git_directory(".git/"));
}
