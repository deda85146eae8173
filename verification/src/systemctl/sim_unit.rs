//! A simulated backend: a unit whose start and stop always succeed and whose
//! activity flag follows a fixed operation delay.

use vstd::prelude::*;

use crate::error::{not_off_msg, not_on_msg, McError, McResult};
use crate::proto::ServerState;
use crate::systemctl::unit::Unit;

verus! {

/// How long a simulated start or stop takes to be reflected in the unit's
/// activity, in milliseconds.
pub const OP_DELAY_MS: u64 = 5000;

/// A backend that manages a pretend external service entirely in memory.
/// `start` and `stop` take effect at once as far as the command's exit code
/// is concerned, but the service only reports active (respectively inactive)
/// once `OP_DELAY_MS` has passed since the command, as a real service would.
pub struct SimUnit {
    pub name: String,
    pub state: ServerState,
    pub last_update: u64,
}

impl SimUnit {
    /// The unit as a refresh at `now_ms` leaves it: a pending start or stop
    /// whose delay has elapsed is folded into the activity state.
    pub open spec fn sim_refreshed(self, now_ms: u64) -> SimUnit {
        if self.state is Booting && now_ms >= self.last_update + OP_DELAY_MS {
            SimUnit { state: ServerState::On, ..self }
        } else if self.state is Shutdown && now_ms >= self.last_update + OP_DELAY_MS {
            SimUnit { state: ServerState::Off, ..self }
        } else {
            self
        }
    }

    pub fn new(name: String) -> (r: Self)
        ensures
            r.name == name,
            r.state is Off,
            r.last_update == 0,
    {
        SimUnit { name, state: ServerState::Off, last_update: 0 }
    }
}

impl Unit for SimUnit {
    open spec fn spec_name(&self) -> Seq<char> {
        self.name@
    }

    open spec fn active(&self) -> bool {
        self.state is On
    }

    open spec fn refresh_ens(&self, now_ms: u64, post: Self, r: McResult<()>) -> bool {
        r is Ok && post == self.sim_refreshed(now_ms)
    }

    open spec fn start_ens(&self, now_ms: u64, post: Self, r: McResult<i32>) -> bool {
        if self.state is Off {
            &&& r matches Ok(code) && code == 0
            &&& post == (SimUnit { state: ServerState::Booting, last_update: now_ms, ..*self })
        } else {
            &&& r matches Err(McError::InvalidOp(m)) && m@ == not_off_msg(self.state)
            &&& post == *self
        }
    }

    open spec fn stop_ens(&self, now_ms: u64, post: Self, r: McResult<i32>) -> bool {
        if self.state is On {
            &&& r matches Ok(code) && code == 0
            &&& post == (SimUnit { state: ServerState::Shutdown, last_update: now_ms, ..*self })
        } else {
            &&& r matches Err(McError::InvalidOp(m)) && m@ == not_on_msg(self.state)
            &&& post == *self
        }
    }

    fn name(&self) -> (r: &str)
        ensures
            r@ == self.spec_name(),
    {
        self.name.as_str()
    }

    fn refresh(&mut self, now_ms: u64) -> (r: McResult<()>)
        ensures
            old(self).refresh_ens(now_ms, *final(self), r),
    {
        if self.state == ServerState::Booting {
            if now_ms >= self.last_update && now_ms - self.last_update >= OP_DELAY_MS {
                self.state = ServerState::On;
            }
        } else if self.state == ServerState::Shutdown {
            if now_ms >= self.last_update && now_ms - self.last_update >= OP_DELAY_MS {
                self.state = ServerState::Off;
            }
        }
        Ok(())
    }

    fn is_active(&self) -> (r: bool)
        ensures
            r == self.active(),
    {
        self.state == ServerState::On
    }

    fn start(&mut self, now_ms: u64) -> (r: McResult<i32>)
        ensures
            old(self).start_ens(now_ms, *final(self), r),
    {
        if self.state != ServerState::Off {
            let mut msg = String::from_str("Server is not in Off state: ");
            msg.append(self.state.label());
            return Err(McError::InvalidOp(msg));
        }
        self.state = ServerState::Booting;
        self.last_update = now_ms;
        Ok(0)
    }

    fn stop(&mut self, now_ms: u64) -> (r: McResult<i32>)
        ensures
            old(self).stop_ens(now_ms, *final(self), r),
    {
        if self.state != ServerState::On {
            let mut msg = String::from_str("Server is not in On state: ");
            msg.append(self.state.label());
            return Err(McError::InvalidOp(msg));
        }
        self.state = ServerState::Shutdown;
        self.last_update = now_ms;
        Ok(0)
    }
}

} // verus!
