//! Lifecycle operations: a state machine over one connection target.
//!
//! Each invocation of `create`, `drop`, `reset` or `setup` is one run of
//! this machine: `init` picks the starting state from the requested
//! operation, every state but `Finished` names the single action the
//! surrounding program must perform next, and `step` consumes that
//! action's outcome. Existence is re-probed on every invocation, never
//! cached; each non-idempotent driver call (create, drop) and the
//! delegated migration run is reached at most once per run.

use vstd::prelude::*;

use crate::gate::ConfirmationDecision;
use crate::gate::ReadOutcome;
use crate::gate::gate_decision;
use crate::gate::gate_rounds;
use crate::gate::is_no_line;
use crate::gate::is_unrecognized_line;
use crate::gate::lemma_gate_fails_closed;
use crate::gate::lemma_gate_first_reply_decides;
use crate::probe::ProbeOutcome;

verus! {

/// The lifecycle operation a caller requested.
#[derive(Clone, Copy, PartialEq, Eq, Debug)]
pub enum Op {
    /// Create the database unless it already exists.
    Create,
    /// Drop the database unless it does not exist; when `confirm` is set,
    /// ask the confirmation gate first.
    Drop { confirm: bool },
    /// Drop, then set up, the database. When the confirmation gate declines the drop,
    /// the setup half still runs: the operation degrades to `Setup`.
    Reset { confirm: bool },
    /// Create the database if needed, then run migrations against it.
    Setup,
}

/// How a finished operation ended.
#[derive(Clone, Copy, PartialEq, Eq, Debug)]
pub enum Outcome {
    /// The operation completed; an aborted confirmation also ends here,
    /// deliberately, with no side effect performed.
    Success,
    /// The existence probe failed: retries exhausted or a fatal check error.
    ConnectionFailed,
    /// The one-shot create or drop call failed; it is never retried.
    DriverFailed,
    /// The delegated migration run failed; prior effects are not rolled back.
    MigrationFailed,
}

/// The one side effect the surrounding program must perform next.
#[derive(Clone, Copy, PartialEq, Eq, Debug)]
pub enum Action {
    /// Run the confirmation gate to a decision.
    AskConfirmation,
    /// Run the existence probe to a report.
    ProbeExistence,
    /// Call the driver's create once.
    CreateDatabase,
    /// Call the driver's drop once.
    DropDatabase,
    /// Delegate to the migration collaborator, no dry run, no pinned version.
    RunMigrations,
}

/// Where one invocation stands. Every state but `Finished` demands exactly
/// one pending action of the surrounding program.
#[derive(Clone, Copy, PartialEq, Eq, Debug)]
pub enum State {
    /// Waiting on the confirmation gate before a drop; when `then_setup`
    /// is set the run continues into setup whatever the confirmation gate decides.
    ConfirmingDrop { then_setup: bool },
    /// Waiting on the existence probe, in order to drop what exists.
    ProbingForDrop { then_setup: bool },
    /// Waiting on the driver's one-shot drop call.
    Dropping { then_setup: bool },
    /// Waiting on the existence probe, in order to create what is missing;
    /// when `then_migrate` is set the run continues into migrations.
    ProbingForCreate { then_migrate: bool },
    /// Waiting on the driver's one-shot create call.
    Creating { then_migrate: bool },
    /// Waiting on the delegated migration run.
    Migrating,
    /// The operation is over; nothing more may be performed.
    Finished { outcome: Outcome },
}

/// Whether a one-shot call succeeded; the surrounding program keeps the
/// actual error for propagation unmodified.
#[derive(Clone, Copy, PartialEq, Eq, Debug)]
pub enum CallOutcome {
    Succeeded,
    Failed,
}

/// The outcome of the pending action, handed back by the surrounding
/// program.
#[derive(Clone, Copy, PartialEq, Eq, Debug)]
pub enum Event {
    /// The confirmation gate reached a decision.
    Confirmation(ConfirmationDecision),
    /// The existence probe reached a report.
    Probe(ProbeOutcome),
    /// The driver's one-shot create or drop call returned.
    Driver(CallOutcome),
    /// The delegated migration run returned.
    Migration(CallOutcome),
}

/// The starting state of each operation. A confirmed drop consults the confirmation gate
/// before anything else; everything else goes straight to the probe.
pub open spec fn spec_init(op: Op) -> State {
    match op {
        Op::Create => State::ProbingForCreate { then_migrate: false },
        Op::Drop { confirm } => if confirm {
            State::ConfirmingDrop { then_setup: false }
        } else {
            State::ProbingForDrop { then_setup: false }
        },
        Op::Reset { confirm } => if confirm {
            State::ConfirmingDrop { then_setup: true }
        } else {
            State::ProbingForDrop { then_setup: true }
        },
        Op::Setup => State::ProbingForCreate { then_migrate: true },
    }
}

/// The action a state demands; `None` exactly when the state is `Finished`.
pub open spec fn pending_action(s: State) -> Option<Action> {
    match s {
        State::ConfirmingDrop { .. } => Some(Action::AskConfirmation),
        State::ProbingForDrop { .. } => Some(Action::ProbeExistence),
        State::Dropping { .. } => Some(Action::DropDatabase),
        State::ProbingForCreate { .. } => Some(Action::ProbeExistence),
        State::Creating { .. } => Some(Action::CreateDatabase),
        State::Migrating => Some(Action::RunMigrations),
        State::Finished { .. } => None,
    }
}

/// Whether an event answers the action a state is waiting on.
pub open spec fn expects(s: State, e: Event) -> bool {
    match s {
        State::ConfirmingDrop { .. } => e is Confirmation,
        State::ProbingForDrop { .. } | State::ProbingForCreate { .. } => e is Probe,
        State::Dropping { .. } | State::Creating { .. } => e is Driver,
        State::Migrating => e is Migration,
        State::Finished { .. } => false,
    }
}

/// One transition of the machine. An event that does not answer the
/// pending action moves nothing. A declined or failed confirmation is
/// success with no side effect — unless the run is a reset, which then
/// degrades to setup against the undropped database. A probe failure is
/// fatal before any driver call; a failed one-shot call or migration run
/// is fatal at once, never retried.
pub open spec fn spec_step(s: State, e: Event) -> State {
    match (s, e) {
        (State::ConfirmingDrop { then_setup }, Event::Confirmation(d)) => match d {
            ConfirmationDecision::Proceed => State::ProbingForDrop { then_setup },
            ConfirmationDecision::Abort | ConfirmationDecision::InputError => if then_setup {
                State::ProbingForCreate { then_migrate: true }
            } else {
                State::Finished { outcome: Outcome::Success }
            },
        },
        (State::ProbingForDrop { then_setup }, Event::Probe(p)) => match p {
            ProbeOutcome::Exists => State::Dropping { then_setup },
            ProbeOutcome::DoesNotExist => if then_setup {
                State::ProbingForCreate { then_migrate: true }
            } else {
                State::Finished { outcome: Outcome::Success }
            },
            ProbeOutcome::Failed => State::Finished { outcome: Outcome::ConnectionFailed },
        },
        (State::Dropping { then_setup }, Event::Driver(r)) => match r {
            CallOutcome::Succeeded => if then_setup {
                State::ProbingForCreate { then_migrate: true }
            } else {
                State::Finished { outcome: Outcome::Success }
            },
            CallOutcome::Failed => State::Finished { outcome: Outcome::DriverFailed },
        },
        (State::ProbingForCreate { then_migrate }, Event::Probe(p)) => match p {
            ProbeOutcome::Exists => if then_migrate {
                State::Migrating
            } else {
                State::Finished { outcome: Outcome::Success }
            },
            ProbeOutcome::DoesNotExist => State::Creating { then_migrate },
            ProbeOutcome::Failed => State::Finished { outcome: Outcome::ConnectionFailed },
        },
        (State::Creating { then_migrate }, Event::Driver(r)) => match r {
            CallOutcome::Succeeded => if then_migrate {
                State::Migrating
            } else {
                State::Finished { outcome: Outcome::Success }
            },
            CallOutcome::Failed => State::Finished { outcome: Outcome::DriverFailed },
        },
        (State::Migrating, Event::Migration(r)) => match r {
            CallOutcome::Succeeded => State::Finished { outcome: Outcome::Success },
            CallOutcome::Failed => State::Finished { outcome: Outcome::MigrationFailed },
        },
        _ => s,
    }
}

/// Start a run of the requested lifecycle operation.
pub fn init(op: Op) -> (s: State)
    ensures
        s == spec_init(op),
{
    match op {
        Op::Create => State::ProbingForCreate { then_migrate: false },
        Op::Drop { confirm } => if confirm {
            State::ConfirmingDrop { then_setup: false }
        } else {
            State::ProbingForDrop { then_setup: false }
        },
        Op::Reset { confirm } => if confirm {
            State::ConfirmingDrop { then_setup: true }
        } else {
            State::ProbingForDrop { then_setup: true }
        },
        Op::Setup => State::ProbingForCreate { then_migrate: true },
    }
}

/// The action the surrounding program must perform next, or `None` when
/// the run is over.
pub fn next_action(s: &State) -> (a: Option<Action>)
    ensures
        a == pending_action(*s),
{
    match s {
        State::ConfirmingDrop { .. } => Some(Action::AskConfirmation),
        State::ProbingForDrop { .. } => Some(Action::ProbeExistence),
        State::Dropping { .. } => Some(Action::DropDatabase),
        State::ProbingForCreate { .. } => Some(Action::ProbeExistence),
        State::Creating { .. } => Some(Action::CreateDatabase),
        State::Migrating => Some(Action::RunMigrations),
        State::Finished { .. } => None,
    }
}

/// How the finished run ended, or `None` while it is still under way.
pub fn outcome(s: &State) -> (o: Option<Outcome>)
    ensures
        match *s {
            State::Finished { outcome } => o == Some(outcome),
            _ => o is None,
        },
{
    match s {
        State::Finished { outcome } => Some(*outcome),
        _ => None,
    }
}

/// Advance the run by the outcome of the pending action.
pub fn step(s: State, e: Event) -> (t: State)
    ensures
        t == spec_step(s, e),
{
    match (s, e) {
        (State::ConfirmingDrop { then_setup }, Event::Confirmation(d)) => match d {
            ConfirmationDecision::Proceed => State::ProbingForDrop { then_setup },
            ConfirmationDecision::Abort | ConfirmationDecision::InputError => if then_setup {
                State::ProbingForCreate { then_migrate: true }
            } else {
                State::Finished { outcome: Outcome::Success }
            },
        },
        (State::ProbingForDrop { then_setup }, Event::Probe(p)) => match p {
            ProbeOutcome::Exists => State::Dropping { then_setup },
            ProbeOutcome::DoesNotExist => if then_setup {
                State::ProbingForCreate { then_migrate: true }
            } else {
                State::Finished { outcome: Outcome::Success }
            },
            ProbeOutcome::Failed => State::Finished { outcome: Outcome::ConnectionFailed },
        },
        (State::Dropping { then_setup }, Event::Driver(r)) => match r {
            CallOutcome::Succeeded => if then_setup {
                State::ProbingForCreate { then_migrate: true }
            } else {
                State::Finished { outcome: Outcome::Success }
            },
            CallOutcome::Failed => State::Finished { outcome: Outcome::DriverFailed },
        },
        (State::ProbingForCreate { then_migrate }, Event::Probe(p)) => match p {
            ProbeOutcome::Exists => if then_migrate {
                State::Migrating
            } else {
                State::Finished { outcome: Outcome::Success }
            },
            ProbeOutcome::DoesNotExist => State::Creating { then_migrate },
            ProbeOutcome::Failed => State::Finished { outcome: Outcome::ConnectionFailed },
        },
        (State::Creating { then_migrate }, Event::Driver(r)) => match r {
            CallOutcome::Succeeded => if then_migrate {
                State::Migrating
            } else {
                State::Finished { outcome: Outcome::Success }
            },
            CallOutcome::Failed => State::Finished { outcome: Outcome::DriverFailed },
        },
        (State::Migrating, Event::Migration(r)) => match r {
            CallOutcome::Succeeded => State::Finished { outcome: Outcome::Success },
            CallOutcome::Failed => State::Finished { outcome: Outcome::MigrationFailed },
        },
        _ => s,
    }
}

/// The state a run reaches from `s` after the given events. A finished run
/// consumes nothing further; an event that does not answer the pending
/// action moves nothing.
pub open spec fn run_state(s: State, events: Seq<Event>) -> State
    decreases events.len(),
{
    if s is Finished || events.len() == 0 {
        s
    } else {
        run_state(spec_step(s, events[0]), events.skip(1))
    }
}

/// The pending action as a sequence: one action for a waiting state,
/// nothing for a finished one.
pub open spec fn emitted(s: State) -> Seq<Action> {
    match pending_action(s) {
        Some(a) => seq![a],
        None => Seq::empty(),
    }
}

/// The actions a run from `s` performs, in order: each state's pending
/// action counts as performed exactly when an event answers it.
pub open spec fn run_actions(s: State, events: Seq<Event>) -> Seq<Action>
    decreases events.len(),
{
    if s is Finished || events.len() == 0 {
        Seq::empty()
    } else if !expects(s, events[0]) {
        run_actions(s, events.skip(1))
    } else {
        emitted(s) + run_actions(spec_step(s, events[0]), events.skip(1))
    }
}

/// How often an action occurs in a run's action sequence.
pub open spec fn count_action(actions: Seq<Action>, a: Action) -> nat
    decreases actions.len(),
{
    if actions.len() == 0 {
        0
    } else {
        (if actions[0] == a {
            1nat
        } else {
            0nat
        }) + count_action(actions.skip(1), a)
    }
}

proof fn lemma_count_cons(first: Action, rest: Seq<Action>, a: Action)
    ensures
        count_action(seq![first] + rest, a) == (if first == a {
            1nat
        } else {
            0nat
        }) + count_action(rest, a),
{
    let s = seq![first] + rest;
    assert(s[0] == first);
    assert(s.skip(1) =~= rest);
}

/// Create is idempotent at the orchestration level: when the probe reports
/// that the database already exists, `create` finishes successfully having
/// performed no driver create call — only the probe itself.
pub proof fn lemma_create_idempotent(events: Seq<Event>)
    requires
        events.len() >= 1,
        events[0] == Event::Probe(ProbeOutcome::Exists),
    ensures
        run_state(spec_init(Op::Create), events) == (State::Finished {
            outcome: Outcome::Success,
        }),
        run_actions(spec_init(Op::Create), events) =~= seq![Action::ProbeExistence],
        count_action(run_actions(spec_init(Op::Create), events), Action::CreateDatabase) == 0,
{
    let s0 = spec_init(Op::Create);
    let s1 = spec_step(s0, events[0]);
    assert(s1 == (State::Finished { outcome: Outcome::Success }));
    assert(run_state(s1, events.skip(1)) == s1);
    assert(run_actions(s1, events.skip(1)) =~= Seq::<Action>::empty());
    assert(run_actions(s0, events) =~= seq![Action::ProbeExistence]);
    reveal_with_fuel(count_action, 3);
}

/// Drop is idempotent at the orchestration level: when the probe reports
/// that the database does not exist, an unconfirmed `drop` finishes
/// successfully having performed no driver drop call — only the probe.
pub proof fn lemma_drop_idempotent(events: Seq<Event>)
    requires
        events.len() >= 1,
        events[0] == Event::Probe(ProbeOutcome::DoesNotExist),
    ensures
        run_state(spec_init(Op::Drop { confirm: false }), events) == (State::Finished {
            outcome: Outcome::Success,
        }),
        run_actions(spec_init(Op::Drop { confirm: false }), events) =~= seq![
            Action::ProbeExistence,
        ],
        count_action(
            run_actions(spec_init(Op::Drop { confirm: false }), events),
            Action::DropDatabase,
        ) == 0,
{
    let s0 = spec_init(Op::Drop { confirm: false });
    let s1 = spec_step(s0, events[0]);
    assert(s1 == (State::Finished { outcome: Outcome::Success }));
    assert(run_state(s1, events.skip(1)) == s1);
    assert(run_actions(s1, events.skip(1)) =~= Seq::<Action>::empty());
    assert(run_actions(s0, events) =~= seq![Action::ProbeExistence]);
    reveal_with_fuel(count_action, 3);
}

/// The confirmation gate fails closed end to end: a session of unrecognized
/// replies ended by a failed read decides `InputError`, and a confirmed
/// `drop` fed that decision finishes successfully having performed nothing
/// beyond consulting the confirmation gate — no probe, no driver drop call.
pub proof fn lemma_drop_fails_closed(
    reads: Seq<ReadOutcome>,
    d: ConfirmationDecision,
    events: Seq<Event>,
)
    requires
        reads.len() >= 1,
        forall|i: int| 0 <= i < reads.len() - 1 ==> is_unrecognized_line(#[trigger] reads[i]),
        reads.last() is Failed,
        gate_decision(reads) == Some(d),
        events.len() >= 1,
        events[0] == Event::Confirmation(d),
    ensures
        d == ConfirmationDecision::InputError,
        run_state(spec_init(Op::Drop { confirm: true }), events) == (State::Finished {
            outcome: Outcome::Success,
        }),
        run_actions(spec_init(Op::Drop { confirm: true }), events) =~= seq![
            Action::AskConfirmation,
        ],
        count_action(
            run_actions(spec_init(Op::Drop { confirm: true }), events),
            Action::DropDatabase,
        ) == 0,
        count_action(
            run_actions(spec_init(Op::Drop { confirm: true }), events),
            Action::ProbeExistence,
        ) == 0,
{
    lemma_gate_fails_closed(reads);
    let s0 = spec_init(Op::Drop { confirm: true });
    let s1 = spec_step(s0, events[0]);
    assert(s1 == (State::Finished { outcome: Outcome::Success }));
    assert(run_state(s1, events.skip(1)) == s1);
    assert(run_actions(s1, events.skip(1)) =~= Seq::<Action>::empty());
    assert(run_actions(s0, events) =~= seq![Action::AskConfirmation]);
    reveal_with_fuel(count_action, 3);
}

/// The confirmation gate short-circuits a declined drop: a first reply of
/// refusal decides `Abort` after a single prompt round-trip, and the drop
/// finishes successfully without ever invoking the existence probe or the
/// driver.
pub proof fn lemma_drop_declined_short_circuit(
    reads: Seq<ReadOutcome>,
    d: ConfirmationDecision,
    events: Seq<Event>,
)
    requires
        reads.len() >= 1,
        is_no_line(reads[0]),
        gate_decision(reads) == Some(d),
        events.len() >= 1,
        events[0] == Event::Confirmation(d),
    ensures
        gate_rounds(reads) == 1,
        d == ConfirmationDecision::Abort,
        run_state(spec_init(Op::Drop { confirm: true }), events) == (State::Finished {
            outcome: Outcome::Success,
        }),
        run_actions(spec_init(Op::Drop { confirm: true }), events) =~= seq![
            Action::AskConfirmation,
        ],
        count_action(
            run_actions(spec_init(Op::Drop { confirm: true }), events),
            Action::DropDatabase,
        ) == 0,
        count_action(
            run_actions(spec_init(Op::Drop { confirm: true }), events),
            Action::ProbeExistence,
        ) == 0,
{
    lemma_gate_first_reply_decides(reads);
    let s0 = spec_init(Op::Drop { confirm: true });
    let s1 = spec_step(s0, events[0]);
    assert(s1 == (State::Finished { outcome: Outcome::Success }));
    assert(run_state(s1, events.skip(1)) == s1);
    assert(run_actions(s1, events.skip(1)) =~= Seq::<Action>::empty());
    assert(run_actions(s0, events) =~= seq![Action::AskConfirmation]);
    reveal_with_fuel(count_action, 3);
}

/// A failed probe stops any operation that begins with one before a single
/// driver call: the run ends with `ConnectionFailed` having performed only
/// the probe. Together with the retrier's bound this is the whole retry
/// story: once the policy is exhausted, nothing destructive has happened.
pub proof fn lemma_probe_failure_stops_operation(op: Op, events: Seq<Event>)
    requires
        spec_init(op) is ProbingForDrop || spec_init(op) is ProbingForCreate,
        events.len() >= 1,
        events[0] == Event::Probe(ProbeOutcome::Failed),
    ensures
        run_state(spec_init(op), events) == (State::Finished {
            outcome: Outcome::ConnectionFailed,
        }),
        run_actions(spec_init(op), events) =~= seq![Action::ProbeExistence],
        count_action(run_actions(spec_init(op), events), Action::CreateDatabase) == 0,
        count_action(run_actions(spec_init(op), events), Action::DropDatabase) == 0,
        count_action(run_actions(spec_init(op), events), Action::RunMigrations) == 0,
{
    let s0 = spec_init(op);
    let s1 = spec_step(s0, events[0]);
    assert(s1 == (State::Finished { outcome: Outcome::ConnectionFailed }));
    assert(run_state(s1, events.skip(1)) == s1);
    assert(run_actions(s1, events.skip(1)) =~= Seq::<Action>::empty());
    assert(run_actions(s0, events) =~= seq![Action::ProbeExistence]);
    reveal_with_fuel(count_action, 3);
}

/// Reset composes drop and setup: an unconfirmed `reset` on an existing
/// database, with every call succeeding, performs exactly one drop call,
/// then one create call, then one migration run — in that order, and
/// nothing else.
pub proof fn lemma_reset_composition(events: Seq<Event>)
    requires
        events.len() >= 5,
        events[0] == Event::Probe(ProbeOutcome::Exists),
        events[1] == Event::Driver(CallOutcome::Succeeded),
        events[2] == Event::Probe(ProbeOutcome::DoesNotExist),
        events[3] == Event::Driver(CallOutcome::Succeeded),
        events[4] == Event::Migration(CallOutcome::Succeeded),
    ensures
        run_state(spec_init(Op::Reset { confirm: false }), events) == (State::Finished {
            outcome: Outcome::Success,
        }),
        run_actions(spec_init(Op::Reset { confirm: false }), events) =~= seq![
            Action::ProbeExistence,
            Action::DropDatabase,
            Action::ProbeExistence,
            Action::CreateDatabase,
            Action::RunMigrations,
        ],
{
    let s0 = spec_init(Op::Reset { confirm: false });
    let t1 = events.skip(1);
    let t2 = t1.skip(1);
    let t3 = t2.skip(1);
    let t4 = t3.skip(1);
    let t5 = t4.skip(1);
    assert(t1[0] == events[1] && t1[1] == events[2] && t1[2] == events[3] && t1[3] == events[4]);
    assert(t2[0] == events[2] && t2[1] == events[3] && t2[2] == events[4]);
    assert(t3[0] == events[3] && t3[1] == events[4]);
    assert(t4[0] == events[4]);
    let s1 = spec_step(s0, events[0]);
    let s2 = spec_step(s1, t1[0]);
    let s3 = spec_step(s2, t2[0]);
    let s4 = spec_step(s3, t3[0]);
    let s5 = spec_step(s4, t4[0]);
    assert(s1 == (State::Dropping { then_setup: true }));
    assert(s2 == (State::ProbingForCreate { then_migrate: true }));
    assert(s3 == (State::Creating { then_migrate: true }));
    assert(s4 == State::Migrating);
    assert(s5 == (State::Finished { outcome: Outcome::Success }));
    assert(run_state(s5, t5) == s5);
    assert(run_state(s4, t4) == run_state(s5, t5));
    assert(run_state(s3, t3) == run_state(s4, t4));
    assert(run_state(s2, t2) == run_state(s3, t3));
    assert(run_state(s1, t1) == run_state(s2, t2));
    assert(run_state(s0, events) == run_state(s1, t1));
    assert(run_actions(s5, t5) =~= Seq::<Action>::empty());
    assert(run_actions(s4, t4) =~= seq![Action::RunMigrations]);
    assert(run_actions(s3, t3) =~= seq![Action::CreateDatabase] + run_actions(s4, t4));
    assert(run_actions(s2, t2) =~= seq![Action::ProbeExistence] + run_actions(s3, t3));
    assert(run_actions(s1, t1) =~= seq![Action::DropDatabase] + run_actions(s2, t2));
    assert(run_actions(s0, events) =~= seq![Action::ProbeExistence] + run_actions(s1, t1));
}

/// A granted confirmation changes nothing but the prompt: once the
/// confirmation gate decides `Proceed`, a confirmed drop or reset runs on
/// exactly as its unconfirmed counterpart would — same states, same
/// actions after the one prompt.
pub proof fn lemma_granted_confirmation_only_adds_the_prompt(op: Op, plain: Op, events: Seq<Event>)
    requires
        (op == (Op::Drop { confirm: true }) && plain == (Op::Drop { confirm: false })) || (op == (
        Op::Reset { confirm: true }) && plain == (Op::Reset { confirm: false })),
        events.len() >= 1,
        events[0] == Event::Confirmation(ConfirmationDecision::Proceed),
    ensures
        run_state(spec_init(op), events) == run_state(spec_init(plain), events.skip(1)),
        run_actions(spec_init(op), events) =~= seq![Action::AskConfirmation] + run_actions(
            spec_init(plain),
            events.skip(1),
        ),
{
    let s0 = spec_init(op);
    assert(spec_step(s0, events[0]) == spec_init(plain));
}

/// States from which a driver drop call may still lie ahead.
pub open spec fn may_drop(s: State) -> bool {
    s is ConfirmingDrop || s is ProbingForDrop || s is Dropping
}

/// States from which a driver create call may still lie ahead.
pub open spec fn may_create(s: State) -> bool {
    may_drop(s) || s is ProbingForCreate || s is Creating
}

proof fn lemma_at_most_one_from(s: State, events: Seq<Event>)
    ensures
        count_action(run_actions(s, events), Action::DropDatabase) <= (if may_drop(s) {
            1nat
        } else {
            0nat
        }),
        count_action(run_actions(s, events), Action::CreateDatabase) <= (if may_create(s) {
            1nat
        } else {
            0nat
        }),
        count_action(run_actions(s, events), Action::RunMigrations) <= (if s is Finished {
            0nat
        } else {
            1nat
        }),
    decreases events.len(),
{
    if s is Finished || events.len() == 0 {
    } else if !expects(s, events[0]) {
        lemma_at_most_one_from(s, events.skip(1));
    } else {
        let s1 = spec_step(s, events[0]);
        lemma_at_most_one_from(s1, events.skip(1));
        let rest = run_actions(s1, events.skip(1));
        match pending_action(s) {
            Some(a) => {
                lemma_count_cons(a, rest, Action::DropDatabase);
                lemma_count_cons(a, rest, Action::CreateDatabase);
                lemma_count_cons(a, rest, Action::RunMigrations);
                assert(run_actions(s, events) == seq![a] + rest);
            },
            None => {
                assert(false);
            },
        }
    }
}

/// The non-idempotent calls are one-shot: however the environment answers,
/// one invocation of any lifecycle operation performs at most one driver
/// drop call, at most one driver create call, and at most one migration
/// run.
pub proof fn lemma_at_most_one_side_effect(op: Op, events: Seq<Event>)
    ensures
        count_action(run_actions(spec_init(op), events), Action::DropDatabase) <= 1,
        count_action(run_actions(spec_init(op), events), Action::CreateDatabase) <= 1,
        count_action(run_actions(spec_init(op), events), Action::RunMigrations) <= 1,
{
    lemma_at_most_one_from(spec_init(op), events);
}

} // verus!

