//! Confirmation gate: the interactive yes/no barrier in front of a
//! destructive operation.
//!
//! The surrounding program reads one line at a time from the interactive
//! channel and hands each read to [`gate_step`]; the confirmation gate decides whether to
//! proceed, abort, or ask again. The confirmation gate never falls through to a default
//! action on unrecognized input, and a failed read (closed or malformed
//! channel) is a decision to abort, never to proceed.

use vstd::prelude::*;

verus! {

/// What one line of user input means to the confirmation gate.
#[derive(Clone, Copy, PartialEq, Eq, Debug)]
pub enum ResponseClass {
    /// The single character `y` or `Y`: consent.
    Yes,
    /// The single character `n` or `N`: refusal.
    No,
    /// Anything else: the confirmation gate must ask again.
    Unrecognized,
}

/// The confirmation gate's answer to the operation that consulted it.
///
/// `InputError` marks a failed interactive read; callers must treat it
/// exactly like `Abort` — the confirmation gate fails closed on ambiguous input.
#[derive(Clone, Copy, PartialEq, Eq, Debug)]
pub enum ConfirmationDecision {
    Proceed,
    Abort,
    InputError,
}

/// One attempt by the surrounding program to read a reply.
#[derive(PartialEq, Eq, Debug)]
pub enum ReadOutcome {
    /// A line was read.
    Line(String),
    /// The read failed: the channel is closed or not interactive.
    Failed,
}

/// What the confirmation gate does after seeing one read: decide, or prompt once more.
#[derive(Clone, Copy, PartialEq, Eq, Debug)]
pub enum GateStep {
    Decided(ConfirmationDecision),
    AskAgain,
}

/// A reply is recognized only as the exact single-character tokens
/// `y`/`Y` (consent) and `n`/`N` (refusal).
pub open spec fn spec_classify(s: Seq<char>) -> ResponseClass {
    if s.len() == 1 && (s[0] == 'y' || s[0] == 'Y') {
        ResponseClass::Yes
    } else if s.len() == 1 && (s[0] == 'n' || s[0] == 'N') {
        ResponseClass::No
    } else {
        ResponseClass::Unrecognized
    }
}

/// Classify one line of user input against the tokens the confirmation gate recognizes.
pub fn classify_response(line: &str) -> (c: ResponseClass)
    ensures
        c == spec_classify(line@),
{
    if line.unicode_len() == 1 {
        let ch = line.get_char(0);
        if ch == 'y' || ch == 'Y' {
            ResponseClass::Yes
        } else if ch == 'n' || ch == 'N' {
            ResponseClass::No
        } else {
            ResponseClass::Unrecognized
        }
    } else {
        ResponseClass::Unrecognized
    }
}

/// The confirmation gate's transition on one read: `y`/`Y` proceeds, `n`/`N` aborts, a
/// failed read aborts as an input error, anything else asks again.
pub open spec fn spec_gate_step(read: ReadOutcome) -> GateStep {
    match read {
        ReadOutcome::Line(s) => match spec_classify(s@) {
            ResponseClass::Yes => GateStep::Decided(ConfirmationDecision::Proceed),
            ResponseClass::No => GateStep::Decided(ConfirmationDecision::Abort),
            ResponseClass::Unrecognized => GateStep::AskAgain,
        },
        ReadOutcome::Failed => GateStep::Decided(ConfirmationDecision::InputError),
    }
}

/// Advance the confirmation gate by one read of the interactive channel.
pub fn gate_step(read: &ReadOutcome) -> (g: GateStep)
    ensures
        g == spec_gate_step(*read),
{
    match read {
        ReadOutcome::Line(line) => match classify_response(line.as_str()) {
            ResponseClass::Yes => GateStep::Decided(ConfirmationDecision::Proceed),
            ResponseClass::No => GateStep::Decided(ConfirmationDecision::Abort),
            ResponseClass::Unrecognized => GateStep::AskAgain,
        },
        ReadOutcome::Failed => GateStep::Decided(ConfirmationDecision::InputError),
    }
}

/// The decision a whole gate session reaches on a sequence of reads:
/// the first decisive read wins; `None` if every read asked again.
pub open spec fn gate_decision(reads: Seq<ReadOutcome>) -> Option<ConfirmationDecision>
    decreases reads.len(),
{
    if reads.len() == 0 {
        None
    } else {
        match spec_gate_step(reads[0]) {
            GateStep::Decided(d) => Some(d),
            GateStep::AskAgain => gate_decision(reads.skip(1)),
        }
    }
}

/// How many prompt round-trips a gate session takes on a sequence of reads.
pub open spec fn gate_rounds(reads: Seq<ReadOutcome>) -> nat
    decreases reads.len(),
{
    if reads.len() == 0 {
        0
    } else {
        match spec_gate_step(reads[0]) {
            GateStep::Decided(_) => 1,
            GateStep::AskAgain => 1 + gate_rounds(reads.skip(1)),
        }
    }
}

/// A read that came back as a line the confirmation gate does not recognize.
pub open spec fn is_unrecognized_line(read: ReadOutcome) -> bool {
    read matches ReadOutcome::Line(s) && spec_classify(s@) == ResponseClass::Unrecognized
}

/// A read that came back as a line of consent.
pub open spec fn is_yes_line(read: ReadOutcome) -> bool {
    read matches ReadOutcome::Line(s) && spec_classify(s@) == ResponseClass::Yes
}

/// A read that came back as a line of refusal.
pub open spec fn is_no_line(read: ReadOutcome) -> bool {
    read matches ReadOutcome::Line(s) && spec_classify(s@) == ResponseClass::No
}

/// The confirmation gate fails closed: when every line read is unrecognized and the
/// channel then fails, the session decides `InputError` — never `Proceed`.
pub proof fn lemma_gate_fails_closed(reads: Seq<ReadOutcome>)
    requires
        reads.len() >= 1,
        forall|i: int| 0 <= i < reads.len() - 1 ==> is_unrecognized_line(#[trigger] reads[i]),
        reads.last() is Failed,
    ensures
        gate_decision(reads) == Some(ConfirmationDecision::InputError),
    decreases reads.len(),
{
    if reads.len() == 1 {
        assert(reads[0] is Failed);
    } else {
        assert(is_unrecognized_line(reads[0]));
        let rest = reads.skip(1);
        assert(rest.last() == reads.last());
        assert(forall|i: int| 0 <= i < rest.len() - 1 ==> is_unrecognized_line(
            #[trigger] rest[i],
        )) by {
            assert(forall|i: int| 0 <= i < rest.len() - 1 ==> rest[i] == reads[i + 1]);
        }
        lemma_gate_fails_closed(rest);
    }
}

/// The confirmation gate short-circuits: a first reply that is itself decisive ends the
/// session after exactly one prompt round-trip, with that reply's decision.
pub proof fn lemma_gate_first_reply_decides(reads: Seq<ReadOutcome>)
    requires
        reads.len() >= 1,
        spec_gate_step(reads[0]) is Decided,
    ensures
        gate_rounds(reads) == 1,
        gate_decision(reads) == Some(spec_gate_step(reads[0])->Decided_0),
{
}

/// The confirmation gate never invents consent: a session decides `Proceed` only if some
/// read actually was the single character `y` or `Y`.
pub proof fn lemma_gate_proceed_needs_yes(reads: Seq<ReadOutcome>)
    requires
        gate_decision(reads) == Some(ConfirmationDecision::Proceed),
    ensures
        exists|i: int| 0 <= i < reads.len() && is_yes_line(#[trigger] reads[i]),
    decreases reads.len(),
{
    if spec_gate_step(reads[0]) is Decided {
        assert(is_yes_line(reads[0]));
    } else {
        lemma_gate_proceed_needs_yes(reads.skip(1));
        let j = choose|j: int| 0 <= j < reads.skip(1).len() && is_yes_line(
            #[trigger] reads.skip(1)[j],
        );
        assert(reads[j + 1] == reads.skip(1)[j]);
    }
}

} // verus!
