//! The lifecycle controller's record for the real service manager: instead
//! of owning a backend capability, it takes each freshly fetched unit as a
//! plain value. The surrounding process performs the fetch and the start
//! and stop commands, holds the one lock, and feeds every outcome back in;
//! every decision and transition is made here.

use vstd::prelude::*;

use crate::controller::{cant_boot_msg, cant_shutdown_msg, reconciled, REFRESH_RATE_MS};
use crate::error::{McError, McResult};
use crate::proto::ServerState;
use crate::systemctl::sys_unit::SysUnit;

verus! {

/// The authoritative record: the last fetched unit, the time of the last
/// successful reconciliation, and the current state. Until a first fetch
/// has landed the unit is `None`, the state `Unknown`, and the next query
/// is obliged to reconcile.
pub struct SystemctlServerStatus {
    pub unit: Option<SysUnit>,
    pub last_updated: u64,
    pub state: ServerState,
}

impl SystemctlServerStatus {
    /// Whether a query at `now_ms` must reconcile before answering: always
    /// before the first fetch, afterwards only once the staleness threshold
    /// has elapsed.
    pub open spec fn needs_refresh(self, now_ms: u64) -> bool {
        self.unit is None || now_ms >= self.last_updated + REFRESH_RATE_MS
    }

    pub fn new() -> (r: Self)
        ensures
            r.unit is None,
            r.state is Unknown,
            r.last_updated == 0,
    {
        SystemctlServerStatus { unit: None, last_updated: 0, state: ServerState::Unknown }
    }

    pub fn state(&self) -> (r: ServerState)
        ensures
            r == self.state,
    {
        self.state
    }

    pub fn unit(&self) -> (r: &Option<SysUnit>)
        ensures
            *r == self.unit,
    {
        &self.unit
    }

    /// Decides `needs_refresh` at `now_ms`.
    pub fn needs_refresh_at(&self, now_ms: u64) -> (r: bool)
        ensures
            r == self.needs_refresh(now_ms),
    {
        self.unit.is_none() || (now_ms >= self.last_updated && now_ms - self.last_updated
            >= REFRESH_RATE_MS)
    }

    /// Folds a freshly fetched unit into the record: stamps the time and
    /// recomputes the state from the unit's activity by the precedence
    /// rule. Only this successful reconciliation moves `last_updated`; a
    /// fetch that failed is simply never handed in, leaving the record
    /// untouched.
    pub fn apply_refresh(&mut self, unit: SysUnit, now_ms: u64)
        ensures
            final(self).state == reconciled(old(self).state, unit.active),
            final(self).last_updated == now_ms,
            final(self).unit == Some(unit),
    {
        let active = unit.active;
        self.unit = Some(unit);
        self.last_updated = now_ms;
        self.state = if self.state == ServerState::Shutdown {
            ServerState::Shutdown
        } else if self.state == ServerState::Booting && !active {
            ServerState::Booting
        } else if !active {
            ServerState::Off
        } else {
            ServerState::On
        };
    }

    /// Admits a boot request exactly from `Off`, marking the transition;
    /// any other state is refused with an invalid-operation error and left
    /// exactly as it was.
    pub fn try_begin_boot(&mut self) -> (r: McResult<()>)
        ensures
            old(self).state is Off ==> r is Ok && *final(self) == (SystemctlServerStatus {
                state: ServerState::Booting,
                ..*old(self)
            }),
            !(old(self).state is Off) ==> (r matches Err(McError::InvalidOp(m)) && m@
                == cant_boot_msg(old(self).state)) && *final(self) == *old(self),
    {
        if self.state != ServerState::Off {
            let mut msg = String::from_str("Can't turn server on in ");
            msg.append(self.state.label());
            msg.append(" state");
            return Err(McError::InvalidOp(msg));
        }
        self.state = ServerState::Booting;
        Ok(())
    }

    /// Admits a shutdown request exactly from `On`, symmetric to
    /// `try_begin_boot`.
    pub fn try_begin_shutdown(&mut self) -> (r: McResult<()>)
        ensures
            old(self).state is On ==> r is Ok && *final(self) == (SystemctlServerStatus {
                state: ServerState::Shutdown,
                ..*old(self)
            }),
            !(old(self).state is On) ==> (r matches Err(McError::InvalidOp(m)) && m@
                == cant_shutdown_msg(old(self).state)) && *final(self) == *old(self),
    {
        if self.state != ServerState::On {
            let mut msg = String::from_str("Can't turn server off in ");
            msg.append(self.state.label());
            msg.append(" state");
            return Err(McError::InvalidOp(msg));
        }
        self.state = ServerState::Shutdown;
        Ok(())
    }

    /// Folds the start command's result into the state: exit 0 keeps
    /// `Booting` for the poll to promote; a nonzero exit or an error aborts
    /// the boot back to `Off` and surfaces the failure.
    pub fn finish_boot(&mut self, started: McResult<i32>) -> (r: McResult<()>)
        requires
            old(self).state is Booting,
        ensures
            final(self).unit == old(self).unit,
            final(self).last_updated == old(self).last_updated,
            started matches Ok(code) ==> (code == 0 ==> r is Ok && final(self).state is Booting)
                && (code != 0 ==> (r matches Err(McError::NonzeroExit(c)) && c == code) && final(self).state is Off),
            started matches Err(e) ==> (r matches Err(e2) && e2 == e) && final(self).state is Off,
            r is Ok <==> (started matches Ok(code) && code == 0),
    {
        match started {
            Ok(code) => {
                if code == 0 {
                    Ok(())
                } else {
                    self.state = ServerState::Off;
                    Err(McError::NonzeroExit(code))
                }
            },
            Err(e) => {
                self.state = ServerState::Off;
                Err(e)
            },
        }
    }

    /// Folds the stop command's result into the state: exit 0 completes the
    /// shutdown to `Off`; a nonzero exit or an error aborts it back to `On`
    /// and surfaces the failure. Only this completion, never a polled
    /// activity read, leaves the `Shutdown` state.
    pub fn finish_shutdown(&mut self, stopped: McResult<i32>) -> (r: McResult<()>)
        requires
            old(self).state is Shutdown,
        ensures
            final(self).unit == old(self).unit,
            final(self).last_updated == old(self).last_updated,
            stopped matches Ok(code) ==> (code == 0 ==> r is Ok && final(self).state is Off) && (
            code != 0 ==> (r matches Err(McError::NonzeroExit(c)) && c == code) && final(self).state is On),
            stopped matches Err(e) ==> (r matches Err(e2) && e2 == e) && final(self).state is On,
            r is Ok <==> (stopped matches Ok(code) && code == 0),
    {
        match stopped {
            Ok(code) => {
                if code == 0 {
                    self.state = ServerState::Off;
                    Ok(())
                } else {
                    self.state = ServerState::On;
                    Err(McError::NonzeroExit(code))
                }
            },
            Err(e) => {
                self.state = ServerState::On;
                Err(e)
            },
        }
    }
}

} // verus!
