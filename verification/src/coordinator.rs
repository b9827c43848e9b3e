//! The close-event coordinator: the per-signal state machine around the `Gate`.
//!
//! Every native close signal is intercepted and the default close is always
//! suppressed.  Only the signal that acquires the `Gate` starts an evaluation;
//! signals arriving while a cycle is in flight are dropped, not queued.  When
//! the evaluation resolves, the `Gate` is released on every outcome that leaves
//! the process alive, and a failure of the decision service is treated
//! exactly like an explicit failed outcome.

use vstd::prelude::*;

use crate::gate::Gate;

verus! {

/// An ephemeral description of one close request: whether it came from a
/// direct user action on the close control.
pub struct ExitRequest {
    pub manual: bool,
}

/// What the exit decision service reported for one acquired cycle.
pub enum ExitOutcome {
    /// The process is terminating; no further coordination is needed.
    Exited,
    /// The decision was deferred; the caller must wait for a further signal.
    Blocked,
    /// The evaluation could not complete, with the reason.
    Failed(String),
}

/// What the intercept path decided for one close signal.
pub struct SignalDisposition {
    /// The host must suppress its default close behaviour.  Always true:
    /// the process never terminates through the native path.
    pub prevent_default: bool,
    /// The evaluation to spawn, present exactly when this signal acquired
    /// the `Gate`; `None` means the signal was dropped as a duplicate.
    pub evaluate: Option<ExitRequest>,
}

/// What the completion handler of one cycle asks of the host.
pub enum CycleResolution {
    /// The process is exiting; the `Gate` is left held and nothing further
    /// happens.
    Exited,
    /// The exit was blocked pending a second confirmation; the `Gate` was
    /// released and the host should log that confirmation is pending.
    AwaitConfirmation,
    /// The evaluation failed; the `Gate` was released and the host should log
    /// the reason.
    EvaluationFailed(String),
}

/// Whether a close signal arriving at a gate in state `busy` starts an
/// evaluation cycle.
pub open spec fn signal_starts_cycle(busy: bool) -> bool {
    !busy
}

/// The `Gate` state after a close signal has been handled: held in either
/// case, since a free gate is acquired and a held one is left held.
pub open spec fn gate_after_signal(busy: bool) -> bool {
    true
}

/// The `Gate` state after a cycle resolves with `outcome`, starting from a
/// gate in state `busy`: released unless the process exited.
pub open spec fn gate_after_resolution(busy: bool, outcome: ExitOutcome) -> bool {
    match outcome {
        ExitOutcome::Exited => busy,
        _ => false,
    }
}

/// How many evaluation cycles a burst of `n` close signals starts when the
/// first of them finds the `Gate` in state `busy` and no cycle resolves in
/// between.
pub open spec fn cycles_started(busy: bool, n: nat) -> nat
    decreases n,
{
    if n == 0 {
        0
    } else {
        (if signal_starts_cycle(busy) {
            1nat
        } else {
            0nat
        }) + cycles_started(gate_after_signal(busy), (n - 1) as nat)
    }
}

/// Handles one intercepted close signal.  The default close is always
/// suppressed; the `Gate` is held afterwards in every case; and an evaluation
/// is requested exactly when this signal found the `Gate` free, carrying
/// whether the signal was a direct user action.
pub fn on_close_signal(gate: &mut Gate, manual: bool) -> (d: SignalDisposition)
    ensures
        d.prevent_default,
        final(gate).in_progress() == gate_after_signal(old(gate).in_progress()),
        old(gate).in_progress() ==> *final(gate) == *old(gate),
        d.evaluate is Some <==> signal_starts_cycle(old(gate).in_progress()),
        d.evaluate matches Some(req) ==> req.manual == manual,
{
    let acquired = gate.acquire();
    if acquired {
        SignalDisposition { prevent_default: true, evaluate: Some(ExitRequest { manual }) }
    } else {
        SignalDisposition { prevent_default: true, evaluate: None }
    }
}

/// The outcome a cycle resolves with, given what came back from the exit
/// decision service: a failure of the service itself counts as an explicit
/// failed outcome with the same reason.
pub open spec fn decided(decision: Result<ExitOutcome, String>) -> ExitOutcome {
    match decision {
        Ok(out) => out,
        Err(reason) => ExitOutcome::Failed(reason),
    }
}

/// Interprets what came back from the exit decision service: a failure of
/// the service itself is treated exactly like an explicit failed outcome.
pub fn outcome_of_decision(decision: Result<ExitOutcome, String>) -> (o: ExitOutcome)
    ensures
        o == decided(decision),
{
    match decision {
        Ok(out) => out,
        Err(reason) => ExitOutcome::Failed(reason),
    }
}

/// The completion handler of one acquired cycle.  It runs on every path out
/// of the decision service: the `Gate` is released whenever the process stays
/// alive, it is left exactly as it was when the process is exiting, and a
/// service failure is recovered locally rather than escaping.
pub fn resolve_cycle(gate: &mut Gate, decision: Result<ExitOutcome, String>) -> (r:
    CycleResolution)
    ensures
        final(gate).in_progress() == gate_after_resolution(
            old(gate).in_progress(),
            decided(decision),
        ),
        decided(decision) is Exited ==> r is Exited && *final(gate) == *old(gate),
        decided(decision) is Blocked ==> r is AwaitConfirmation,
        decided(decision) matches ExitOutcome::Failed(reason) ==> r
            == CycleResolution::EvaluationFailed(reason),
{
    let outcome = outcome_of_decision(decision);
    match outcome {
        ExitOutcome::Exited => CycleResolution::Exited,
        ExitOutcome::Blocked => {
            gate.release();
            CycleResolution::AwaitConfirmation
        },
        ExitOutcome::Failed(reason) => {
            gate.release();
            CycleResolution::EvaluationFailed(reason)
        },
    }
}

/// Single-flight law: however many close signals arrive while one
/// evaluation cycle is in flight, none of them starts a cycle, so the exit
/// decision service is not invoked again until that cycle resolves.
pub proof fn lemma_single_flight(n: nat)
    ensures
        cycles_started(true, n) == 0,
    decreases n,
{
    if n > 0 {
        lemma_single_flight((n - 1) as nat);
    }
}

/// Deduplication law: a burst of close signals that begins at a free gate
/// starts exactly one evaluation cycle, no matter how long the burst is.
pub proof fn lemma_burst_starts_one_cycle(n: nat)
    requires
        n >= 1,
    ensures
        cycles_started(false, n) == 1,
{
    lemma_single_flight((n - 1) as nat);
}

/// Release law: after a cycle resolves with a blocked or failed outcome the
/// gate is observably free, and a subsequent burst of close signals starts
/// exactly one new evaluation cycle.
pub proof fn lemma_released_gate_admits_one(busy: bool, outcome: ExitOutcome, n: nat)
    requires
        !(outcome is Exited),
        n >= 1,
    ensures
        !gate_after_resolution(busy, outcome),
        cycles_started(gate_after_resolution(busy, outcome), n) == 1,
{
    lemma_burst_starts_one_cycle(n);
}

/// Terminal law: after an exited outcome the `Gate` of the resolved cycle is
/// left held, and no later close signal starts another evaluation cycle, so
/// no further release is ever required.
pub proof fn lemma_exited_is_terminal(outcome: ExitOutcome, n: nat)
    requires
        outcome is Exited,
    ensures
        gate_after_resolution(true, outcome),
        cycles_started(gate_after_resolution(true, outcome), n) == 0,
{
    lemma_single_flight(n);
}

} // verus!
