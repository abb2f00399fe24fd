//! Lifecycle state machine of one TDI and its legal-transition table.
//!
//! Transitions are the only way the lifecycle state changes: handlers ask
//! `spec_operation_allowed` before acting and move the machine through the
//! named transition methods only.  Every (state, operation) pair is covered:
//! a pair outside the table is a precondition failure at the handler, not a
//! missing entry.

use vstd::prelude::*;

verus! {

/// Lifecycle state of a TDI.  `Error` is a sink reachable from any state on
/// an unrecoverable fault; only an out-of-band reset leaves it.
#[derive(Clone, Copy, PartialEq, Eq, Structural, Debug)]
pub enum TdispState {
    ConfigUnlocked,
    ConfigLocked,
    Run,
    Error,
}

/// Wire code of a lifecycle state, carried by the interface-state response.
pub open spec fn spec_state_code(s: TdispState) -> u8 {
    match s {
        TdispState::ConfigUnlocked => 0,
        TdispState::ConfigLocked => 1,
        TdispState::Run => 2,
        TdispState::Error => 3,
    }
}

/// The TDISP operations a request can ask for, one per request message type.
#[derive(Clone, Copy, PartialEq, Eq, Structural, Debug)]
pub enum TdispOperation {
    GetVersion,
    GetCapabilities,
    LockInterface,
    GetInterfaceState,
    StartInterface,
    StopInterface,
}

/// The legal-transition table: whether `op` may run in state `s`.  The
/// read-only queries are answered in every state; the state-changing
/// operations are gated on the lifecycle position.
pub open spec fn spec_operation_allowed(s: TdispState, op: TdispOperation) -> bool {
    match op {
        TdispOperation::GetVersion => true,
        TdispOperation::GetCapabilities => true,
        TdispOperation::GetInterfaceState => true,
        TdispOperation::LockInterface => s == TdispState::ConfigUnlocked,
        TdispOperation::StartInterface => s == TdispState::ConfigLocked,
        TdispOperation::StopInterface => s == TdispState::ConfigLocked || s == TdispState::Run,
    }
}

/// Where a permitted operation leaves the machine.  Queries keep the state;
/// the lifecycle operations move it along the table.
pub open spec fn spec_next_state(s: TdispState, op: TdispOperation) -> TdispState
    recommends
        spec_operation_allowed(s, op),
{
    match op {
        TdispOperation::GetVersion => s,
        TdispOperation::GetCapabilities => s,
        TdispOperation::GetInterfaceState => s,
        TdispOperation::LockInterface => TdispState::ConfigLocked,
        TdispOperation::StartInterface => TdispState::Run,
        TdispOperation::StopInterface => TdispState::ConfigUnlocked,
    }
}

/// Holds the current lifecycle state of one TDI.
#[derive(Clone, Copy, PartialEq, Eq, Structural, Debug)]
pub struct TdispStateMachine {
    pub state: TdispState,
}

impl TdispStateMachine {
    /// A TDI is created in `ConfigUnlocked` when it is first associated
    /// with a responder.
    pub fn new() -> (sm: TdispStateMachine)
        ensures
            sm.state == TdispState::ConfigUnlocked,
    {
        TdispStateMachine { state: TdispState::ConfigUnlocked }
    }

    /// Executable twin of `spec_operation_allowed` for the current state.
    pub fn operation_allowed(&self, op: TdispOperation) -> (b: bool)
        ensures
            b == spec_operation_allowed(self.state, op),
    {
        match op {
            TdispOperation::GetVersion => true,
            TdispOperation::GetCapabilities => true,
            TdispOperation::GetInterfaceState => true,
            TdispOperation::LockInterface => matches!(self.state, TdispState::ConfigUnlocked),
            TdispOperation::StartInterface => matches!(self.state, TdispState::ConfigLocked),
            TdispOperation::StopInterface => matches!(
                self.state,
                TdispState::ConfigLocked | TdispState::Run
            ),
        }
    }

    /// Executable twin of `spec_state_code` for the current state.
    pub fn state_code(&self) -> (c: u8)
        ensures
            c == spec_state_code(self.state),
    {
        match self.state {
            TdispState::ConfigUnlocked => 0,
            TdispState::ConfigLocked => 1,
            TdispState::Run => 2,
            TdispState::Error => 3,
        }
    }

    /// Transition taken by a successful Stop Interface.
    pub fn to_state_config_unlocked(&mut self)
        ensures
            final(self).state == TdispState::ConfigUnlocked,
    {
        self.state = TdispState::ConfigUnlocked;
    }

    /// Transition taken by a successful Lock Interface.
    pub fn to_state_config_locked(&mut self)
        ensures
            final(self).state == TdispState::ConfigLocked,
    {
        self.state = TdispState::ConfigLocked;
    }

    /// Transition taken by a successful Start Interface.
    pub fn to_state_run(&mut self)
        ensures
            final(self).state == TdispState::Run,
    {
        self.state = TdispState::Run;
    }

    /// Sink transition on an unrecoverable internal fault, reachable from
    /// any state.
    pub fn to_state_error(&mut self)
        ensures
            final(self).state == TdispState::Error,
    {
        self.state = TdispState::Error;
    }
}

} // verus!
