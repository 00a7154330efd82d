//! The terminal session: who has the terminal, and what has to be done to
//! it when it changes hands around a child process.

use vstd::prelude::*;

verus! {

/// Who has the terminal.
#[derive(Debug, Clone, Copy, PartialEq, Eq)]
pub enum TerminalState {
    /// The launcher: raw mode, alternate screen.
    Active,
    /// A child process: cooked mode, normal screen, cursor shown.
    Suspended,
}

/// What has to be done to the terminal.
#[derive(Debug, Clone, Copy, PartialEq, Eq)]
pub enum TerminalOp {
    /// Leave raw mode and the alternate screen and show the cursor.
    Release,
    /// Enter raw mode and the alternate screen and redraw everything.
    TakeOver,
}

/// Suspending an active session releases the terminal; a suspended session
/// stays as it is.
pub open spec fn after_suspend(state: TerminalState) -> (TerminalState, Option<TerminalOp>) {
    match state {
        TerminalState::Active => (TerminalState::Suspended, Some(TerminalOp::Release)),
        TerminalState::Suspended => (TerminalState::Suspended, None),
    }
}

/// Resuming a suspended session takes the terminal over; an active session
/// stays as it is.
pub open spec fn after_resume(state: TerminalState) -> (TerminalState, Option<TerminalOp>) {
    match state {
        TerminalState::Suspended => (TerminalState::Active, Some(TerminalOp::TakeOver)),
        TerminalState::Active => (TerminalState::Active, None),
    }
}

impl TerminalState {
    /// Hands the terminal to a child process. Returns what has to be done
    /// to the terminal for that, if anything.
    pub fn suspend(&mut self) -> (op: Option<TerminalOp>)
        ensures
            (*final(self), op) == after_suspend(*old(self)),
    {
        match *self {
            TerminalState::Active => {
                *self = TerminalState::Suspended;
                Some(TerminalOp::Release)
            },
            TerminalState::Suspended => None,
        }
    }

    /// Takes the terminal back. Returns what has to be done to the terminal
    /// for that, if anything.
    pub fn resume(&mut self) -> (op: Option<TerminalOp>)
        ensures
            (*final(self), op) == after_resume(*old(self)),
    {
        match *self {
            TerminalState::Suspended => {
                *self = TerminalState::Active;
                Some(TerminalOp::TakeOver)
            },
            TerminalState::Active => None,
        }
    }
}

/// Every suspension is undone by one resumption: from an active session,
/// suspend and then resume release the terminal once, take it over once and
/// leave the session active; and a resumption leaves the session active
/// from whatever state, so that it may stand on every path out of the
/// suspended work.
pub proof fn lemma_suspend_resume_pairs(state: TerminalState)
    ensures
        after_resume(state).0 == TerminalState::Active,
        after_resume(after_suspend(state).0) == (
            TerminalState::Active,
            Some(TerminalOp::TakeOver),
        ),
        after_suspend(TerminalState::Active) == (
            TerminalState::Suspended,
            Some(TerminalOp::Release),
        ),
        after_resume(after_resume(state).0).1 is None,
        after_suspend(after_suspend(state).0).1 is None,
{
}

} // verus!
