//! The transaction wrapper: a begin/commit/rollback bracket around one
//! caller-supplied unit of work, driven as an explicit state machine so
//! that the ordering discipline is checked — the callback runs only
//! after `BEGIN` succeeded, success is sealed with `COMMIT`, a callback
//! failure triggers a best-effort `ROLLBACK` whose own outcome is
//! swallowed, and the callback's original failure is what gets re-raised.
use vstd::prelude::*;
use vstd::string::StrSliceExecFns;
use vstd::string::StringExecFns;

verus! {

/// Where the bracket stands.
#[derive(Clone, Copy, Debug, PartialEq, Eq, Structural)]
pub enum TxPhase {
    /// `BEGIN` has been issued and its outcome is awaited.
    Ready,
    /// The transaction is open; the callback is running.
    Begun,
    /// The callback returned; `COMMIT` is in flight.
    Committing,
    /// The callback failed; a best-effort `ROLLBACK` is in flight.
    RollingBack,
    /// The bracket is finished.
    Done,
}

/// What the driver observed.
#[derive(Clone, Copy, Debug, PartialEq, Eq, Structural)]
pub enum TxEvent {
    BeginOk,
    BeginFailed,
    CallbackReturned,
    CallbackRaised,
    CommitOk,
    CommitFailed,
    RollbackOk,
    RollbackFailed,
}

/// What the driver must do next.
#[derive(Clone, Copy, Debug, PartialEq, Eq, Structural)]
pub enum TxAction {
    /// Invoke the caller's callback with the original arguments.
    RunCallback,
    /// Execute `COMMIT` on the shared connection.
    ExecCommit,
    /// Execute `ROLLBACK` on the shared connection.
    ExecRollback,
    /// Hand the callback's result back unchanged.
    ReturnResult,
    /// Re-raise the failure `BEGIN` reported.
    RaiseBeginError,
    /// Re-raise the failure `COMMIT` reported.
    RaiseCommitError,
    /// Re-raise the callback's original failure, whatever the rollback
    /// outcome was.
    RaiseCallbackError,
}

/// Which events a phase can observe.
pub open spec fn tx_expects(phase: TxPhase, ev: TxEvent) -> bool {
    match phase {
        TxPhase::Ready => ev == TxEvent::BeginOk || ev == TxEvent::BeginFailed,
        TxPhase::Begun => ev == TxEvent::CallbackReturned || ev == TxEvent::CallbackRaised,
        TxPhase::Committing => ev == TxEvent::CommitOk || ev == TxEvent::CommitFailed,
        TxPhase::RollingBack => ev == TxEvent::RollbackOk || ev == TxEvent::RollbackFailed,
        TxPhase::Done => false,
    }
}

/// The transition relation of the bracket.
pub open spec fn tx_step_spec(phase: TxPhase, ev: TxEvent) -> (TxPhase, TxAction) {
    match (phase, ev) {
        (TxPhase::Ready, TxEvent::BeginOk) => (TxPhase::Begun, TxAction::RunCallback),
        (TxPhase::Ready, _) => (TxPhase::Done, TxAction::RaiseBeginError),
        (TxPhase::Begun, TxEvent::CallbackReturned) => (TxPhase::Committing, TxAction::ExecCommit),
        (TxPhase::Begun, _) => (TxPhase::RollingBack, TxAction::ExecRollback),
        (TxPhase::Committing, TxEvent::CommitOk) => (TxPhase::Done, TxAction::ReturnResult),
        (TxPhase::Committing, _) => (TxPhase::Done, TxAction::RaiseCommitError),
        (TxPhase::RollingBack, _) => (TxPhase::Done, TxAction::RaiseCallbackError),
        (TxPhase::Done, _) => (TxPhase::Done, TxAction::RaiseCallbackError),
    }
}

/// The single-shot bracket around one invocation of the wrapped callback.
#[derive(Debug)]
pub struct TransactionWrapper {
    pub phase: TxPhase,
}

impl TransactionWrapper {
    /// A fresh bracket: the driver first executes `BEGIN <mode>` (see
    /// `begin_sql`) and reports its outcome.
    pub fn wrap() -> (m: TransactionWrapper)
        ensures
            m.phase == TxPhase::Ready,
    {
        TransactionWrapper { phase: TxPhase::Ready }
    }

    /// Observes one outcome and says what to do next, per the transition
    /// relation.
    pub fn step(&mut self, ev: TxEvent) -> (a: TxAction)
        requires
            tx_expects(old(self).phase, ev),
        ensures
            (final(self).phase, a) == tx_step_spec(old(self).phase, ev),
    {
        let (phase, action) = match (self.phase, ev) {
            (TxPhase::Ready, TxEvent::BeginOk) => (TxPhase::Begun, TxAction::RunCallback),
            (TxPhase::Ready, _) => (TxPhase::Done, TxAction::RaiseBeginError),
            (TxPhase::Begun, TxEvent::CallbackReturned) => (
                TxPhase::Committing,
                TxAction::ExecCommit,
            ),
            (TxPhase::Begun, _) => (TxPhase::RollingBack, TxAction::ExecRollback),
            (TxPhase::Committing, TxEvent::CommitOk) => (TxPhase::Done, TxAction::ReturnResult),
            (TxPhase::Committing, _) => (TxPhase::Done, TxAction::RaiseCommitError),
            (TxPhase::RollingBack, _) => (TxPhase::Done, TxAction::RaiseCallbackError),
            (TxPhase::Done, _) => (TxPhase::Done, TxAction::RaiseCallbackError),
        };
        self.phase = phase;
        action
    }
}

/// The statement that opens the bracket: plain `BEGIN` for the default
/// empty mode, else `BEGIN` followed by the mode word.
pub open spec fn begin_sql_spec(mode: Seq<char>) -> Seq<char> {
    if mode.len() == 0 {
        "BEGIN"@
    } else {
        "BEGIN "@ + mode
    }
}

/// Builds the statement that opens the bracket.
pub fn begin_sql(mode: &str) -> (r: String)
    ensures
        r@ == begin_sql_spec(mode@),
{
    if mode.unicode_len() == 0 {
        "BEGIN".to_owned()
    } else {
        let mut s = "BEGIN ".to_owned();
        s.append(mode);
        s
    }
}

/// The actions a bracket run takes on a sequence of observed outcomes,
/// from the given phase on.
pub open spec fn tx_run(phase: TxPhase, evs: Seq<TxEvent>) -> Seq<TxAction>
    decreases evs.len(),
{
    if evs.len() == 0 || !tx_expects(phase, evs[0]) {
        Seq::empty()
    } else {
        let (next, a) = tx_step_spec(phase, evs[0]);
        seq![a] + tx_run(next, evs.skip(1))
    }
}

/// A callback that returns normally is bracketed by exactly `BEGIN`
/// (already issued when the run starts) and `COMMIT`, and its result is
/// handed back: the run invokes the callback, commits, and returns.
pub proof fn lemma_commit_path()
    ensures
        tx_run(
            TxPhase::Ready,
            seq![TxEvent::BeginOk, TxEvent::CallbackReturned, TxEvent::CommitOk],
        ) =~= seq![TxAction::RunCallback, TxAction::ExecCommit, TxAction::ReturnResult],
{
    reveal_with_fuel(tx_run, 4);
    let evs = seq![TxEvent::BeginOk, TxEvent::CallbackReturned, TxEvent::CommitOk];
    assert(evs.skip(1) =~= seq![TxEvent::CallbackReturned, TxEvent::CommitOk]);
    assert(evs.skip(1).skip(1) =~= seq![TxEvent::CommitOk]);
    assert(evs.skip(1).skip(1).skip(1) =~= Seq::<TxEvent>::empty());
}

/// A callback that fails is followed by a best-effort `ROLLBACK`, and
/// the callback's original failure is what gets re-raised — whether the
/// rollback itself succeeded or failed.
pub proof fn lemma_rollback_swallows_rollback_outcome(rollback_outcome: TxEvent)
    requires
        rollback_outcome == TxEvent::RollbackOk || rollback_outcome == TxEvent::RollbackFailed,
    ensures
        tx_run(TxPhase::Ready, seq![TxEvent::BeginOk, TxEvent::CallbackRaised, rollback_outcome])
            =~= seq![TxAction::RunCallback, TxAction::ExecRollback, TxAction::RaiseCallbackError],
{
    reveal_with_fuel(tx_run, 4);
    let evs = seq![TxEvent::BeginOk, TxEvent::CallbackRaised, rollback_outcome];
    assert(evs.skip(1) =~= seq![TxEvent::CallbackRaised, rollback_outcome]);
    assert(evs.skip(1).skip(1) =~= seq![rollback_outcome]);
    assert(evs.skip(1).skip(1).skip(1) =~= Seq::<TxEvent>::empty());
}

/// When `BEGIN` itself fails, its failure is raised at once: the
/// callback is never invoked and nothing else is executed.
pub proof fn lemma_begin_failure_runs_nothing(evs: Seq<TxEvent>)
    requires
        evs.len() >= 1,
        evs[0] == TxEvent::BeginFailed,
    ensures
        tx_run(TxPhase::Ready, evs) =~= seq![TxAction::RaiseBeginError],
{
    reveal_with_fuel(tx_run, 2);
}

} // verus!
