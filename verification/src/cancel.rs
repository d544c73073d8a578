//! The process-wide cancellation flag.
//!
//! A single broadcast-once flag coordinates graceful shutdown: it is
//! created armed, moves to cancelled when the first termination signal is
//! observed, and never moves again. Observing further signals is a no-op.

use vstd::prelude::*;

verus! {

/// The two termination signals the process listens for.
#[derive(Clone, Copy, Debug, PartialEq, Eq, Structural)]
pub enum SignalKind {
    Interrupt,
    Terminate,
}

/// The two states of the cancellation flag; `Cancelled` is terminal.
#[derive(Clone, Copy, Debug, PartialEq, Eq, Structural)]
pub enum CancelState {
    Armed,
    Cancelled,
}

/// The broadcast-once cancellation flag.
pub struct CancellationSignal {
    pub state: CancelState,
}

/// How many shutdown sequences a burst of termination signals starts from
/// the given state: every signal leaves the flag cancelled, and only a
/// signal that finds it armed starts one.
pub open spec fn shutdowns_started(s: CancelState, signals: Seq<SignalKind>) -> nat
    decreases signals.len(),
{
    if signals.len() == 0 {
        0
    } else {
        (if s is Armed {
            1nat
        } else {
            0nat
        }) + shutdowns_started(CancelState::Cancelled, signals.drop_first())
    }
}

impl CancellationSignal {
    /// A fresh flag, still armed.
    pub fn new() -> (s: CancellationSignal)
        ensures
            s.state is Armed,
    {
        CancellationSignal { state: CancelState::Armed }
    }

    /// Observes one termination signal. Whatever its kind, the flag is
    /// cancelled afterwards; the transition fires exactly when the flag
    /// was still armed, so a second signal is a no-op.
    pub fn observe(&mut self, _kind: SignalKind) -> (fired: bool)
        ensures
            final(self).state is Cancelled,
            fired == (old(self).state is Armed),
    {
        let was_armed = match self.state {
            CancelState::Armed => true,
            CancelState::Cancelled => false,
        };
        self.state = CancelState::Cancelled;
        was_armed
    }

    /// Whether cancellation has been signaled.
    pub fn is_cancelled(&self) -> (b: bool)
        ensures
            b == (self.state is Cancelled),
    {
        match self.state {
            CancelState::Armed => false,
            CancelState::Cancelled => true,
        }
    }
}

/// The flag transitions at most once. Out of the armed state a non-empty
/// burst of termination signals — of whatever kinds, in whatever order —
/// starts exactly one shutdown sequence; out of the cancelled state it
/// starts none.
pub proof fn lemma_single_shutdown(s: CancelState, signals: Seq<SignalKind>)
    ensures
        shutdowns_started(s, signals) <= 1,
        s is Cancelled ==> shutdowns_started(s, signals) == 0,
        s is Armed && signals.len() > 0 ==> shutdowns_started(s, signals) == 1,
    decreases signals.len(),
{
    if signals.len() > 0 {
        lemma_single_shutdown(CancelState::Cancelled, signals.drop_first());
    }
}

} // verus!
