use db_lifecycle::gate::ConfirmationDecision;
use db_lifecycle::lifecycle::{
    init, next_action, outcome, step, Action, CallOutcome, Event, Op, Outcome, State,
};
use db_lifecycle::probe::ProbeOutcome;

/// Drive one run: feed each event in turn, recording the action each
/// non-final state demanded just before its event was consumed.
fn drive(op: Op, events: &[Event]) -> (State, Vec<Action>) {
    let mut state = init(op);
    let mut actions = Vec::new();
    for event in events.iter() {
        match next_action(&state) {
            Some(a) => actions.push(a),
            None => break,
        }
        state = step(state, *event);
    }
    (state, actions)
}

#[test]
fn create_on_existing_database_is_a_no_op() {
    let (state, actions) = drive(Op::Create, &[Event::Probe(ProbeOutcome::Exists)]);
    assert_eq!(
        state,
        State::Finished {
            outcome: Outcome::Success
        }
    );
    assert_eq!(actions, vec![Action::ProbeExistence]);
}

#[test]
fn create_on_missing_database_creates_once() {
    let (state, actions) = drive(
        Op::Create,
        &[
            Event::Probe(ProbeOutcome::DoesNotExist),
            Event::Driver(CallOutcome::Succeeded),
        ],
    );
    assert_eq!(
        state,
        State::Finished {
            outcome: Outcome::Success
        }
    );
    assert_eq!(actions, vec![Action::ProbeExistence, Action::CreateDatabase]);
}

#[test]
fn drop_on_missing_database_is_a_no_op() {
    let (state, actions) = drive(
        Op::Drop { confirm: false },
        &[Event::Probe(ProbeOutcome::DoesNotExist)],
    );
    assert_eq!(
        state,
        State::Finished {
            outcome: Outcome::Success
        }
    );
    assert_eq!(actions, vec![Action::ProbeExistence]);
}

#[test]
fn confirmed_drop_fails_closed_on_input_error() {
    // The confirmation gate could not get a recognizable answer and the channel closed:
    // its InputError decision ends the drop successfully with no probe and
    // no driver call.
    let (state, actions) = drive(
        Op::Drop { confirm: true },
        &[Event::Confirmation(ConfirmationDecision::InputError)],
    );
    assert_eq!(
        state,
        State::Finished {
            outcome: Outcome::Success
        }
    );
    assert_eq!(actions, vec![Action::AskConfirmation]);
}

#[test]
fn declined_drop_never_probes() {
    let s0 = init(Op::Drop { confirm: true });
    assert_eq!(s0, State::ConfirmingDrop { then_setup: false });
    let s1 = step(s0, Event::Confirmation(ConfirmationDecision::Abort));
    // Straight from the confirmation gate to success: the probe and the driver are
    // never reached.
    assert_eq!(
        s1,
        State::Finished {
            outcome: Outcome::Success
        }
    );
}

#[test]
fn confirmed_drop_drops_once() {
    // The user answers `Y`: one drop call, then success.
    let (state, actions) = drive(
        Op::Drop { confirm: true },
        &[
            Event::Confirmation(ConfirmationDecision::Proceed),
            Event::Probe(ProbeOutcome::Exists),
            Event::Driver(CallOutcome::Succeeded),
        ],
    );
    assert_eq!(
        state,
        State::Finished {
            outcome: Outcome::Success
        }
    );
    assert_eq!(
        actions,
        vec![
            Action::AskConfirmation,
            Action::ProbeExistence,
            Action::DropDatabase
        ]
    );
}

#[test]
fn failed_probe_stops_drop_before_the_driver() {
    let (state, actions) = drive(
        Op::Drop { confirm: false },
        &[Event::Probe(ProbeOutcome::Failed)],
    );
    assert_eq!(
        state,
        State::Finished {
            outcome: Outcome::ConnectionFailed
        }
    );
    assert_eq!(actions, vec![Action::ProbeExistence]);
}

#[test]
fn failed_probe_stops_create_before_the_driver() {
    let (state, actions) = drive(Op::Create, &[Event::Probe(ProbeOutcome::Failed)]);
    assert_eq!(
        state,
        State::Finished {
            outcome: Outcome::ConnectionFailed
        }
    );
    assert_eq!(actions, vec![Action::ProbeExistence]);
}

#[test]
fn failed_create_call_is_fatal_and_not_retried() {
    let (state, actions) = drive(
        Op::Create,
        &[
            Event::Probe(ProbeOutcome::DoesNotExist),
            Event::Driver(CallOutcome::Failed),
        ],
    );
    assert_eq!(
        state,
        State::Finished {
            outcome: Outcome::DriverFailed
        }
    );
    assert_eq!(actions, vec![Action::ProbeExistence, Action::CreateDatabase]);
}

#[test]
fn failed_drop_call_is_fatal_and_not_retried() {
    let (state, _) = drive(
        Op::Drop { confirm: false },
        &[
            Event::Probe(ProbeOutcome::Exists),
            Event::Driver(CallOutcome::Failed),
        ],
    );
    assert_eq!(
        state,
        State::Finished {
            outcome: Outcome::DriverFailed
        }
    );
}

#[test]
fn failed_migration_is_fatal() {
    let (state, actions) = drive(
        Op::Setup,
        &[
            Event::Probe(ProbeOutcome::Exists),
            Event::Migration(CallOutcome::Failed),
        ],
    );
    assert_eq!(
        state,
        State::Finished {
            outcome: Outcome::MigrationFailed
        }
    );
    assert_eq!(actions, vec![Action::ProbeExistence, Action::RunMigrations]);
}

#[test]
fn setup_on_missing_database_creates_then_migrates() {
    // One create call, then one migration run, then success.
    let s0 = init(Op::Setup);
    assert_eq!(s0, State::ProbingForCreate { then_migrate: true });
    let s1 = step(s0, Event::Probe(ProbeOutcome::DoesNotExist));
    assert_eq!(s1, State::Creating { then_migrate: true });
    let s2 = step(s1, Event::Driver(CallOutcome::Succeeded));
    assert_eq!(s2, State::Migrating);
    let s3 = step(s2, Event::Migration(CallOutcome::Succeeded));
    assert_eq!(
        s3,
        State::Finished {
            outcome: Outcome::Success
        }
    );
}

#[test]
fn reset_composes_drop_create_migrate_in_order() {
    // Unconfirmed reset on an existing database: exactly one drop, one
    // create, one migration run, in that order.
    let (state, actions) = drive(
        Op::Reset { confirm: false },
        &[
            Event::Probe(ProbeOutcome::Exists),
            Event::Driver(CallOutcome::Succeeded),
            Event::Probe(ProbeOutcome::DoesNotExist),
            Event::Driver(CallOutcome::Succeeded),
            Event::Migration(CallOutcome::Succeeded),
        ],
    );
    assert_eq!(
        state,
        State::Finished {
            outcome: Outcome::Success
        }
    );
    assert_eq!(
        actions,
        vec![
            Action::ProbeExistence,
            Action::DropDatabase,
            Action::ProbeExistence,
            Action::CreateDatabase,
            Action::RunMigrations
        ]
    );
}

#[test]
fn aborted_reset_degrades_to_setup() {
    // The confirmation gate declines the drop; reset still sets the database up, and no
    // drop call is ever made.
    let (state, actions) = drive(
        Op::Reset { confirm: true },
        &[
            Event::Confirmation(ConfirmationDecision::Abort),
            Event::Probe(ProbeOutcome::Exists),
            Event::Migration(CallOutcome::Succeeded),
        ],
    );
    assert_eq!(
        state,
        State::Finished {
            outcome: Outcome::Success
        }
    );
    assert_eq!(
        actions,
        vec![
            Action::AskConfirmation,
            Action::ProbeExistence,
            Action::RunMigrations
        ]
    );
}

#[test]
fn unexpected_event_moves_nothing() {
    let s0 = init(Op::Drop { confirm: false });
    let s1 = step(s0, Event::Migration(CallOutcome::Succeeded));
    assert_eq!(s0, s1);
}

#[test]
fn outcome_is_readable_only_when_finished() {
    assert_eq!(outcome(&State::Migrating), None);
    assert_eq!(
        outcome(&State::Finished {
            outcome: Outcome::DriverFailed
        }),
        Some(Outcome::DriverFailed)
    );
}

#[test]
fn granted_reset_runs_like_an_unconfirmed_reset() {
    // The user consents: after the one prompt, reset performs the same
    // drop, create and migration sequence it performs without confirmation.
    let (state, actions) = drive(
        Op::Reset { confirm: true },
        &[
            Event::Confirmation(ConfirmationDecision::Proceed),
            Event::Probe(ProbeOutcome::Exists),
            Event::Driver(CallOutcome::Succeeded),
            Event::Probe(ProbeOutcome::DoesNotExist),
            Event::Driver(CallOutcome::Succeeded),
            Event::Migration(CallOutcome::Succeeded),
        ],
    );
    assert_eq!(
        state,
        State::Finished {
            outcome: Outcome::Success
        }
    );
    assert_eq!(
        actions,
        vec![
            Action::AskConfirmation,
            Action::ProbeExistence,
            Action::DropDatabase,
            Action::ProbeExistence,
            Action::CreateDatabase,
            Action::RunMigrations
        ]
    );
}
