//! A self-contained simulated lifecycle controller: the whole managed
//! service lives in memory and every transition completes on its own after a
//! fixed delay. It answers the same three requests as the real controller
//! and is what the control channel serves when the process runs simulated.

use vstd::prelude::*;

use crate::error::{not_off_msg, not_on_msg, McError, McResult};
use crate::proto::ServerState;

verus! {

/// Delay after which a simulated boot or shutdown completes, in
/// milliseconds.
pub const OP_DELAY_MS: u64 = 5000;

/// The simulated controller's whole state: the reported lifecycle state and
/// the time the transition in flight (if any) was requested.
pub struct SimServerController {
    pub state: ServerState,
    pub last_update: u64,
}

impl SimServerController {
    /// The state as a query at `now_ms` sees it: a boot or shutdown
    /// requested `OP_DELAY_MS` or more ago has completed.
    pub open spec fn ticked(self, now_ms: u64) -> SimServerController {
        if self.state is Booting && now_ms >= self.last_update + OP_DELAY_MS {
            SimServerController { state: ServerState::On, ..self }
        } else if self.state is Shutdown && now_ms >= self.last_update + OP_DELAY_MS {
            SimServerController { state: ServerState::Off, ..self }
        } else {
            self
        }
    }

    /// The state a boot request at `now_ms` leaves behind: from `Off` the
    /// transition to `Booting` is recorded, from anything else nothing
    /// beyond the tick itself changes.
    pub open spec fn boot_requested(self, now_ms: u64) -> SimServerController {
        let t = self.ticked(now_ms);
        if t.state is Off {
            SimServerController { state: ServerState::Booting, last_update: now_ms }
        } else {
            t
        }
    }

    /// The state a shutdown request at `now_ms` leaves behind, symmetric to
    /// `boot_requested` with `On` and `Shutdown` in place of `Off` and
    /// `Booting`.
    pub open spec fn shutdown_requested(self, now_ms: u64) -> SimServerController {
        let t = self.ticked(now_ms);
        if t.state is On {
            SimServerController { state: ServerState::Shutdown, last_update: now_ms }
        } else {
            t
        }
    }

    /// A fresh simulated controller: the pretend service starts off.
    pub fn new() -> (r: Self)
        ensures
            r.state is Off,
            r.last_update == 0,
    {
        SimServerController { state: ServerState::Off, last_update: 0 }
    }

    /// Completes in place any transition whose delay has elapsed.
    pub fn maybe_update_state(&mut self, now_ms: u64)
        ensures
            *final(self) == old(self).ticked(now_ms),
    {
        if self.state == ServerState::Booting {
            if now_ms >= self.last_update && now_ms - self.last_update >= OP_DELAY_MS {
                self.state = ServerState::On;
            }
        } else if self.state == ServerState::Shutdown {
            if now_ms >= self.last_update && now_ms - self.last_update >= OP_DELAY_MS {
                self.state = ServerState::Off;
            }
        }
    }

    /// Reports the current state as of `now_ms`. The simulation itself
    /// cannot fail; the `Result` mirrors the real controller's signature.
    pub fn server_state(&mut self, now_ms: u64) -> (r: McResult<ServerState>)
        ensures
            *final(self) == old(self).ticked(now_ms),
            r == Ok::<ServerState, McError>(final(self).state),
    {
        self.maybe_update_state(now_ms);
        Ok(self.state)
    }

    /// Requests a boot: admitted exactly when the state as of `now_ms` is
    /// `Off`, in which case the controller moves to `Booting` and will
    /// report `On` once the delay elapses.
    pub fn boot_server(&mut self, now_ms: u64) -> (r: McResult<()>)
        ensures
            *final(self) == old(self).boot_requested(now_ms),
            r is Ok <==> old(self).ticked(now_ms).state is Off,
            r matches Err(e) ==> e matches McError::InvalidOp(m) && m@ == not_off_msg(
                old(self).ticked(now_ms).state,
            ),
    {
        self.maybe_update_state(now_ms);
        if self.state != ServerState::Off {
            let mut msg = String::from_str("Server is not in Off state: ");
            msg.append(self.state.label());
            return Err(McError::InvalidOp(msg));
        }
        self.state = ServerState::Booting;
        self.last_update = now_ms;
        Ok(())
    }

    /// Requests a shutdown: admitted exactly when the state as of `now_ms`
    /// is `On`, in which case the controller moves to `Shutdown` and will
    /// report `Off` once the delay elapses.
    pub fn shutdown_server(&mut self, now_ms: u64) -> (r: McResult<()>)
        ensures
            *final(self) == old(self).shutdown_requested(now_ms),
            r is Ok <==> old(self).ticked(now_ms).state is On,
            r matches Err(e) ==> e matches McError::InvalidOp(m) && m@ == not_on_msg(
                old(self).ticked(now_ms).state,
            ),
    {
        self.maybe_update_state(now_ms);
        if self.state != ServerState::On {
            let mut msg = String::from_str("Server is not in On state: ");
            msg.append(self.state.label());
            return Err(McError::InvalidOp(msg));
        }
        self.state = ServerState::Shutdown;
        self.last_update = now_ms;
        Ok(())
    }
}

/// Initial state: from `Off` with no transition in flight, every later
/// query still reports `Off`; with `new`'s guarantee this is the fresh
/// controller's deterministic answer.
pub proof fn lemma_initial_state(c: SimServerController, now_ms: u64)
    requires
        c.state is Off,
    ensures
        c.ticked(now_ms).state is Off,
{
}

/// Boot progression: a boot admitted at `t0` reports `Booting` at once,
/// still `Booting` at any query strictly before the operation delay has
/// elapsed, and `On` at any query at or after it.
pub proof fn lemma_boot_progression(c: SimServerController, t0: u64, t1: u64)
    requires
        c.ticked(t0).state is Off,
    ensures
        c.boot_requested(t0).state is Booting,
        t1 < t0 + OP_DELAY_MS ==> c.boot_requested(t0).ticked(t1).state is Booting,
        t1 >= t0 + OP_DELAY_MS ==> c.boot_requested(t0).ticked(t1).state is On,
{
}

/// Boot precondition: a boot requested while the state as of that moment is
/// `Booting` or `On` changes nothing beyond the tick itself; with
/// `boot_server`'s guarantee the request also fails with an invalid
/// operation error.
pub proof fn lemma_boot_precondition(c: SimServerController, now_ms: u64)
    requires
        c.ticked(now_ms).state is Booting || c.ticked(now_ms).state is On,
    ensures
        c.boot_requested(now_ms) == c.ticked(now_ms),
{
}

/// Shutdown progression: a shutdown admitted at `t0` reports `Shutdown` at
/// once, still `Shutdown` strictly before the delay has elapsed, and `Off`
/// at or after it.
pub proof fn lemma_shutdown_progression(c: SimServerController, t0: u64, t1: u64)
    requires
        c.ticked(t0).state is On,
    ensures
        c.shutdown_requested(t0).state is Shutdown,
        t1 < t0 + OP_DELAY_MS ==> c.shutdown_requested(t0).ticked(t1).state is Shutdown,
        t1 >= t0 + OP_DELAY_MS ==> c.shutdown_requested(t0).ticked(t1).state is Off,
{
}

/// Shutdown precondition: a shutdown requested while the state as of that
/// moment is not `On` changes nothing beyond the tick itself; with
/// `shutdown_server`'s guarantee the request also fails.
pub proof fn lemma_shutdown_precondition(c: SimServerController, now_ms: u64)
    requires
        !(c.ticked(now_ms).state is On),
    ensures
        c.shutdown_requested(now_ms) == c.ticked(now_ms),
{
}

/// Exclusivity of boots: once a boot has been admitted, no later query ever
/// observes `Off` again until a shutdown completes, so a second boot
/// request, whenever it is serialized, is refused: of two racing boot
/// requests exactly one succeeds.
pub proof fn lemma_boot_exclusive(c: SimServerController, t0: u64, t1: u64)
    requires
        c.ticked(t0).state is Off,
    ensures
        !(c.boot_requested(t0).ticked(t1).state is Off),
{
}

/// Exclusivity of shutdowns, symmetric to `lemma_boot_exclusive`: once a
/// shutdown has been admitted no later query observes `On` until a boot
/// completes, so a second shutdown request is refused.
pub proof fn lemma_shutdown_exclusive(c: SimServerController, t0: u64, t1: u64)
    requires
        c.ticked(t0).state is On,
    ensures
        !(c.shutdown_requested(t0).ticked(t1).state is On),
{
}

} // verus!
