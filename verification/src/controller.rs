//! The server lifecycle controller: a guarded state machine that serializes
//! boot and shutdown requests against one external service and reconciles
//! its own view of that service against the backend no more often than a
//! fixed interval.
//!
//! Time enters every operation as an explicit millisecond reading, and the
//! backend is any implementation of [`Unit`], so the whole machine is a
//! function of plain values. Mutual exclusion is the caller's duty: the
//! methods take `&mut self`, and the surrounding process wraps a controller
//! in one lock so that at most one task observes or mutates it at a time.

pub mod sim_server_controller;

use vstd::prelude::*;

use crate::error::{McError, McResult};
use crate::proto::ServerState;
use crate::systemctl::unit::Unit;

verus! {

/// Minimum interval between reconciliations against the external source of
/// truth, in milliseconds.
pub const REFRESH_RATE_MS: u64 = 5000;

/// How a reconciliation folds an activity observation into the current
/// state, as an ordered precedence rule:
/// a shutdown in flight is never overridden by an activity read; a boot in
/// flight is kept while the service still reports inactive; otherwise the
/// observation alone decides.
pub open spec fn reconciled(old_state: ServerState, active: bool) -> ServerState {
    if old_state is Shutdown {
        ServerState::Shutdown
    } else if old_state is Booting && !active {
        ServerState::Booting
    } else if !active {
        ServerState::Off
    } else {
        ServerState::On
    }
}

/// Message carried by the `InvalidOp` error of a boot request that found the
/// controller in state `st`.
pub open spec fn cant_boot_msg(st: ServerState) -> Seq<char> {
    "Can't turn server on in "@ + st.label_spec() + " state"@
}

/// Message carried by the `InvalidOp` error of a shutdown request that found
/// the controller in state `st`.
pub open spec fn cant_shutdown_msg(st: ServerState) -> Seq<char> {
    "Can't turn server off in "@ + st.label_spec() + " state"@
}

/// The controller's authoritative record: the backend handle, the time of
/// the last successful reconciliation, and the current state. `refreshed`
/// records whether any reconciliation has succeeded yet; until one has, the
/// state is `Unknown` and the next query is obliged to reconcile.
pub struct ServerStatus<U> {
    pub unit: U,
    pub last_updated: u64,
    pub state: ServerState,
    pub refreshed: bool,
}

impl<U: Unit> ServerStatus<U> {
    /// Whether a query at `now_ms` must reconcile before answering: always
    /// on the first query, afterwards only once the staleness threshold has
    /// elapsed.
    pub open spec fn needs_refresh(self, now_ms: u64) -> bool {
        !self.refreshed || now_ms >= self.last_updated + REFRESH_RATE_MS
    }

    /// The record's own fields agree with `other`'s; says nothing of the
    /// backend handle.
    pub open spec fn same_view(self, other: Self) -> bool {
        &&& self.state == other.state
        &&& self.last_updated == other.last_updated
        &&& self.refreshed == other.refreshed
    }

    /// What a reconciliation at `now_ms` that returned `Ok` guarantees.
    pub open spec fn update_ok_ens(self, post: Self, now_ms: u64) -> bool {
        &&& self.unit.refresh_ens(now_ms, post.unit, Ok(()))
        &&& post.state == reconciled(self.state, post.unit.active())
        &&& post.last_updated == now_ms
        &&& post.refreshed
    }

    pub fn new(unit: U) -> (r: Self)
        ensures
            r.unit == unit,
            r.state is Unknown,
            r.last_updated == 0,
            !r.refreshed,
    {
        ServerStatus { unit, last_updated: 0, state: ServerState::Unknown, refreshed: false }
    }

    pub fn unit(&self) -> (r: &U)
        ensures
            *r == self.unit,
    {
        &self.unit
    }

    pub fn unit_mut(&mut self) -> (r: &mut U)
        ensures
            *r == old(self).unit,
            *final(self) == (ServerStatus { unit: *final(r), ..*old(self) }),
    {
        &mut self.unit
    }

    pub fn state(&self) -> (r: ServerState)
        ensures
            r == self.state,
    {
        self.state
    }

    /// Marks the start of a boot: only ever called from `Off`.
    pub fn begin_boot(&mut self)
        requires
            old(self).state is Off,
        ensures
            *final(self) == (ServerStatus { state: ServerState::Booting, ..*old(self) }),
    {
        self.state = ServerState::Booting;
    }

    /// Reverts an aborted boot: only ever called from `Booting`.
    pub fn abort_boot(&mut self)
        requires
            old(self).state is Booting,
        ensures
            *final(self) == (ServerStatus { state: ServerState::Off, ..*old(self) }),
    {
        self.state = ServerState::Off;
    }

    /// Marks the start of a shutdown: only ever called from `On`.
    pub fn begin_shutdown(&mut self)
        requires
            old(self).state is On,
        ensures
            *final(self) == (ServerStatus { state: ServerState::Shutdown, ..*old(self) }),
    {
        self.state = ServerState::Shutdown;
    }

    /// Records a completed shutdown: only ever called from `Shutdown`.
    pub fn complete_shutdown(&mut self)
        requires
            old(self).state is Shutdown,
        ensures
            *final(self) == (ServerStatus { state: ServerState::Off, ..*old(self) }),
    {
        self.state = ServerState::Off;
    }

    /// Reverts an aborted shutdown: only ever called from `Shutdown`.
    pub fn abort_shutdown(&mut self)
        requires
            old(self).state is Shutdown,
        ensures
            *final(self) == (ServerStatus { state: ServerState::On, ..*old(self) }),
    {
        self.state = ServerState::On;
    }

    /// Reconciles unconditionally: queries the backend, stamps the time and
    /// folds the observed activity into the state by the precedence rule.
    /// A failed query leaves the record exactly as it was.
    pub fn do_update(&mut self, now_ms: u64) -> (r: McResult<()>)
        ensures
            r is Ok ==> old(self).update_ok_ens(*final(self), now_ms),
            r matches Err(e) ==> {
                &&& old(self).unit.refresh_ens(now_ms, final(self).unit, Err(e))
                &&& final(self).same_view(*old(self))
            },
    {
        let queried = self.unit.refresh(now_ms);
        match queried {
            Ok(u) => {
                proof {
                    assert(u == ());
                    assert(queried == Ok::<(), McError>(()));
                }
            }
            Err(e) => {
                return Err(e);
            }
        }
        self.last_updated = now_ms;
        self.refreshed = true;
        let active = self.unit.is_active();
        self.state = if self.state == ServerState::Shutdown {
            ServerState::Shutdown
        } else if self.state == ServerState::Booting && !active {
            ServerState::Booting
        } else if !active {
            ServerState::Off
        } else {
            ServerState::On
        };
        Ok(())
    }

    /// Reconciles only when due. Within the staleness threshold this is a
    /// no-op and in particular issues no backend query at all.
    pub fn maybe_update(&mut self, now_ms: u64) -> (r: McResult<()>)
        ensures
            !old(self).needs_refresh(now_ms) ==> *final(self) == *old(self) && r is Ok,
            old(self).needs_refresh(now_ms) && r is Ok ==> old(self).update_ok_ens(
                *final(self),
                now_ms,
            ),
            r matches Err(e) ==> {
                &&& old(self).unit.refresh_ens(now_ms, final(self).unit, Err(e))
                &&& final(self).same_view(*old(self))
            },
            r is Ok ==> !final(self).needs_refresh(now_ms),
            old(self).state is Shutdown ==> final(self).state is Shutdown,
            old(self).state is Booting ==> final(self).state is Booting || final(self).state is On,
    {
        if self.refreshed && (now_ms < self.last_updated || now_ms - self.last_updated
            < REFRESH_RATE_MS) {
            return Ok(());
        }
        self.do_update(now_ms)
    }

    /// What issuing the external start command from an admitted record
    /// guarantees, whatever the command hands back: the record's stamp is
    /// kept, and the outcome is the command's own — exit 0 leaves the boot
    /// in flight as `Booting`, while a nonzero exit or an error aborts it
    /// back to `Off` and surfaces exactly that failure.
    pub open spec fn start_outcome_ens(self, post: Self, now_ms: u64, r: McResult<()>) -> bool {
        exists|sr: McResult<i32>|
            {
                &&& #[trigger] self.unit.start_ens(now_ms, post.unit, sr)
                &&& post.last_updated == self.last_updated
                &&& post.refreshed == self.refreshed
                &&& match sr {
                    Ok(code) => if code == 0 {
                        r is Ok && post.state is Booting
                    } else {
                        (r matches Err(McError::NonzeroExit(c)) && c == code) && post.state is Off
                    },
                    Err(e) => (r matches Err(e2) && e2 == e) && post.state is Off,
                }
            }
    }

    /// What issuing the external stop command from an admitted record
    /// guarantees, symmetric to `start_outcome_ens`: exit 0 completes the
    /// shutdown to `Off`, while a nonzero exit or an error aborts it back
    /// to `On` and surfaces exactly that failure.
    pub open spec fn stop_outcome_ens(self, post: Self, now_ms: u64, r: McResult<()>) -> bool {
        exists|sr: McResult<i32>|
            {
                &&& #[trigger] self.unit.stop_ens(now_ms, post.unit, sr)
                &&& post.last_updated == self.last_updated
                &&& post.refreshed == self.refreshed
                &&& match sr {
                    Ok(code) => if code == 0 {
                        r is Ok && post.state is Off
                    } else {
                        (r matches Err(McError::NonzeroExit(c)) && c == code) && post.state is On
                    },
                    Err(e) => (r matches Err(e2) && e2 == e) && post.state is On,
                }
            }
    }

    /// Everything a boot request guarantees, over every path. Within the
    /// staleness window the prior state alone decides: from `Off` the
    /// outcome is the start command's, from anything else the request is
    /// refused with the exact message and nothing moves. When a
    /// reconciliation is due, either it fails — its error is surfaced and
    /// the record is left exactly as it was — or it yields the record the
    /// precedence rule fixes, from which the same admission decision is
    /// made against the reconciled state.
    pub open spec fn boot_ens(self, post: Self, now_ms: u64, r: McResult<()>) -> bool {
        if !self.needs_refresh(now_ms) {
            if self.state is Off {
                self.start_outcome_ens(post, now_ms, r)
            } else {
                (r matches Err(McError::InvalidOp(m)) && m@ == cant_boot_msg(self.state)) && post
                    == self
            }
        } else {
            ||| ((r matches Err(e) && self.unit.refresh_ens(now_ms, post.unit, Err(e)))
                && post.same_view(self))
            ||| (exists|mid: Self|
                {
                    &&& #[trigger] self.update_ok_ens(mid, now_ms)
                    &&& if mid.state is Off {
                        mid.start_outcome_ens(post, now_ms, r)
                    } else {
                        (r matches Err(McError::InvalidOp(m)) && m@ == cant_boot_msg(mid.state))
                            && post == mid
                    }
                })
        }
    }

    /// Everything a shutdown request guarantees, over every path, symmetric
    /// to `boot_ens` with `On`, the stop command and its messages in place
    /// of `Off` and the start command.
    pub open spec fn shutdown_ens(self, post: Self, now_ms: u64, r: McResult<()>) -> bool {
        if !self.needs_refresh(now_ms) {
            if self.state is On {
                self.stop_outcome_ens(post, now_ms, r)
            } else {
                (r matches Err(McError::InvalidOp(m)) && m@ == cant_shutdown_msg(self.state))
                    && post == self
            }
        } else {
            ||| ((r matches Err(e) && self.unit.refresh_ens(now_ms, post.unit, Err(e)))
                && post.same_view(self))
            ||| (exists|mid: Self|
                {
                    &&& #[trigger] self.update_ok_ens(mid, now_ms)
                    &&& if mid.state is On {
                        mid.stop_outcome_ens(post, now_ms, r)
                    } else {
                        (r matches Err(McError::InvalidOp(m)) && m@ == cant_shutdown_msg(
                            mid.state,
                        )) && post == mid
                    }
                })
        }
    }
}

/// The lifecycle controller: owns one [`ServerStatus`] record. The caller
/// provides mutual exclusion around it (one lock per controller), which is
/// the system's sole concurrency guarantee.
pub struct ServerController<U> {
    pub server_status: ServerStatus<U>,
}

impl<U: Unit> ServerController<U> {
    pub fn new(unit: U) -> (r: Self)
        ensures
            r.server_status.unit == unit,
            r.server_status.state is Unknown,
            !r.server_status.refreshed,
    {
        ServerController { server_status: ServerStatus::new(unit) }
    }

    /// Reconciles if due and reports the current state.
    ///
    /// Within the staleness threshold the whole controller, backend handle
    /// included, is left untouched: no second query is issued. A `Shutdown`
    /// in flight is reported as `Shutdown` whatever the backend says.
    pub fn server_state(&mut self, now_ms: u64) -> (r: McResult<ServerState>)
        ensures
            !old(self).server_status.needs_refresh(now_ms) ==> *final(self) == *old(self)
                && r == Ok::<ServerState, McError>(old(self).server_status.state),
            r is Ok ==> r == Ok::<ServerState, McError>(final(self).server_status.state)
                && !final(self).server_status.needs_refresh(now_ms),
            old(self).server_status.needs_refresh(now_ms) && r is Ok
                ==> old(self).server_status.update_ok_ens(final(self).server_status, now_ms),
            r is Err ==> final(self).server_status.same_view(old(self).server_status),
            r matches Err(e) ==> old(self).server_status.unit.refresh_ens(
                now_ms,
                final(self).server_status.unit,
                Err(e),
            ),
            old(self).server_status.state is Shutdown
                ==> final(self).server_status.state is Shutdown,
    {
        match self.server_status.maybe_update(now_ms) {
            Ok(()) => {}
            Err(e) => {
                return Err(e);
            }
        }
        Ok(self.server_status.state())
    }

    /// Requests a boot: reconciles if due, admits the request only from
    /// `Off`, marks the state `Booting`, issues the external start command
    /// and folds its exit into the state through
    /// [`ServerStatus::finish_boot`].
    ///
    /// On any failure of the command itself the state reverts to `Off`; a
    /// request refused for its precondition leaves the reconciled state as
    /// it was. A boot or shutdown already in flight is never displaced, so
    /// of two racing boot requests the one serialized second fails.
    /// [`ServerStatus::boot_ens`] states the whole outcome path by path.
    pub fn boot_server(&mut self, now_ms: u64) -> (r: McResult<()>)
        ensures
            old(self).server_status.boot_ens(final(self).server_status, now_ms, r),
            r is Ok ==> final(self).server_status.state is Booting
                && !final(self).server_status.needs_refresh(now_ms),
            r is Ok && old(self).server_status.needs_refresh(now_ms)
                ==> final(self).server_status.last_updated == now_ms
                && final(self).server_status.refreshed,
            old(self).server_status.state is Booting ==> r is Err
                && !(final(self).server_status.state is Off),
            old(self).server_status.state is Shutdown ==> r is Err
                && final(self).server_status.state is Shutdown,
            !old(self).server_status.needs_refresh(now_ms)
                && !(old(self).server_status.state is Off) ==> (r matches Err(McError::InvalidOp(m))
                && m@ == cant_boot_msg(old(self).server_status.state)) && *final(self) == *old(self),
            !old(self).server_status.needs_refresh(now_ms) && old(self).server_status.state is Off
                ==> (final(self).server_status.state is Booting
                || final(self).server_status.state is Off) && (r is Ok
                <==> final(self).server_status.state is Booting)
                && final(self).server_status.last_updated == old(self).server_status.last_updated
                && final(self).server_status.refreshed == old(self).server_status.refreshed,
    {
        let ghost pre = self.server_status;
        match self.server_status.maybe_update(now_ms) {
            Ok(()) => {}
            Err(e) => {
                proof {
                    assert(pre.needs_refresh(now_ms));
                    assert(self.server_status.same_view(pre));
                }
                return Err(e);
            }
        }
        let ghost mid = self.server_status;
        if self.server_status.state() != ServerState::Off {
            let mut msg = String::from_str("Can't turn server on in ");
            msg.append(self.server_status.state().label());
            msg.append(" state");
            proof {
                if pre.needs_refresh(now_ms) {
                    assert(pre.update_ok_ens(mid, now_ms));
                }
            }
            return Err(McError::InvalidOp(msg));
        }
        self.server_status.begin_boot();
        let started = self.server_status.unit.start(now_ms);
        let r = self.server_status.finish_boot(started);
        proof {
            assert(mid.unit.start_ens(now_ms, self.server_status.unit, started));
            assert(mid.start_outcome_ens(self.server_status, now_ms, r));
            if pre.needs_refresh(now_ms) {
                assert(pre.update_ok_ens(mid, now_ms));
            }
        }
        r
    }

    /// Requests a shutdown: reconciles if due, admits the request only from
    /// `On`, marks the state `Shutdown`, issues the external stop command,
    /// waits for its completion and folds its exit into the state through
    /// [`ServerStatus::finish_shutdown`]. Success means the shutdown has
    /// completed and the state is `Off`.
    /// [`ServerStatus::shutdown_ens`] states the whole outcome path by path.
    pub fn shutdown_server(&mut self, now_ms: u64) -> (r: McResult<()>)
        ensures
            old(self).server_status.shutdown_ens(final(self).server_status, now_ms, r),
            r is Ok ==> final(self).server_status.state is Off
                && !final(self).server_status.needs_refresh(now_ms),
            r is Ok && old(self).server_status.needs_refresh(now_ms)
                ==> final(self).server_status.last_updated == now_ms
                && final(self).server_status.refreshed,
            old(self).server_status.state is Shutdown ==> r is Err
                && final(self).server_status.state is Shutdown,
            !old(self).server_status.needs_refresh(now_ms)
                && !(old(self).server_status.state is On) ==> (r matches Err(McError::InvalidOp(m))
                && m@ == cant_shutdown_msg(old(self).server_status.state)) && *final(self) == *old(self),
            !old(self).server_status.needs_refresh(now_ms) && old(self).server_status.state is On
                ==> (final(self).server_status.state is Off
                || final(self).server_status.state is On) && (r is Ok
                <==> final(self).server_status.state is Off)
                && final(self).server_status.last_updated == old(self).server_status.last_updated
                && final(self).server_status.refreshed == old(self).server_status.refreshed,
    {
        let ghost pre = self.server_status;
        match self.server_status.maybe_update(now_ms) {
            Ok(()) => {}
            Err(e) => {
                proof {
                    assert(pre.needs_refresh(now_ms));
                    assert(self.server_status.same_view(pre));
                }
                return Err(e);
            }
        }
        let ghost mid = self.server_status;
        if self.server_status.state() != ServerState::On {
            let mut msg = String::from_str("Can't turn server off in ");
            msg.append(self.server_status.state().label());
            msg.append(" state");
            proof {
                if pre.needs_refresh(now_ms) {
                    assert(pre.update_ok_ens(mid, now_ms));
                }
            }
            return Err(McError::InvalidOp(msg));
        }
        self.server_status.begin_shutdown();
        let stopped = self.server_status.unit.stop(now_ms);
        let r = self.server_status.finish_shutdown(stopped);
        proof {
            assert(mid.unit.stop_ens(now_ms, self.server_status.unit, stopped));
            assert(mid.stop_outcome_ens(self.server_status, now_ms, r));
            if pre.needs_refresh(now_ms) {
                assert(pre.update_ok_ens(mid, now_ms));
            }
        }
        r
    }
}

impl<U: Unit> ServerStatus<U> {
    /// Folds the result of the external start command into the state: this
    /// is where the controller's answer to every possible outcome of the
    /// command is fixed. Exit 0 keeps `Booting` (the poll will promote it to
    /// `On`); a nonzero exit or an error aborts the boot back to `Off` and
    /// surfaces the failure.
    pub fn finish_boot(&mut self, started: McResult<i32>) -> (r: McResult<()>)
        requires
            old(self).state is Booting,
        ensures
            final(self).unit == old(self).unit,
            final(self).last_updated == old(self).last_updated,
            final(self).refreshed == old(self).refreshed,
            started matches Ok(code) ==> (code == 0 ==> r is Ok && final(self).state is Booting)
                && (code != 0 ==> (r matches Err(McError::NonzeroExit(c)) && c == code) && final(self).state is Off),
            started matches Err(e) ==> (r matches Err(e2) && e2 == e) && final(self).state is Off,
            r is Ok <==> (started matches Ok(code) && code == 0),
    {
        match started {
            Ok(code) => {
                if code == 0 {
                    Ok(())
                } else {
                    self.abort_boot();
                    Err(McError::NonzeroExit(code))
                }
            }
            Err(e) => {
                self.abort_boot();
                Err(e)
            }
        }
    }

    /// Folds the result of the external stop command into the state. Exit 0
    /// completes the shutdown to `Off`; a nonzero exit or an error aborts it
    /// back to `On` and surfaces the failure. Only this completion, never a
    /// polled activity read, leaves the `Shutdown` state.
    pub fn finish_shutdown(&mut self, stopped: McResult<i32>) -> (r: McResult<()>)
        requires
            old(self).state is Shutdown,
        ensures
            final(self).unit == old(self).unit,
            final(self).last_updated == old(self).last_updated,
            final(self).refreshed == old(self).refreshed,
            stopped matches Ok(code) ==> (code == 0 ==> r is Ok && final(self).state is Off) && (
            code != 0 ==> (r matches Err(McError::NonzeroExit(c)) && c == code) && final(self).state is On),
            stopped matches Err(e) ==> (r matches Err(e2) && e2 == e) && final(self).state is On,
            r is Ok <==> (stopped matches Ok(code) && code == 0),
    {
        match stopped {
            Ok(code) => {
                if code == 0 {
                    self.complete_shutdown();
                    Ok(())
                } else {
                    self.abort_shutdown();
                    Err(McError::NonzeroExit(code))
                }
            }
            Err(e) => {
                self.abort_shutdown();
                Err(e)
            }
        }
    }
}

/// A shutdown in flight is never clobbered by a reconciliation: whatever
/// activity the poll observes, `Shutdown` reconciles to `Shutdown`; only the
/// stop command's own completion leaves that state.
pub proof fn lemma_shutdown_never_clobbered(active: bool)
    ensures
        reconciled(ServerState::Shutdown, active) == ServerState::Shutdown,
{
}

/// The poll is the mechanism that promotes a boot: from `Booting` a
/// reconciliation moves to `On` exactly when the service reports active, and
/// in particular never back to `Off`. With `boot_server`'s guarantee that a
/// request from `Booting` or `Shutdown` fails, this is why of two boot
/// requests serialized by the controller's lock exactly the first can
/// succeed.
pub proof fn lemma_boot_in_flight(active: bool)
    ensures
        reconciled(ServerState::Booting, active) == if active {
            ServerState::On
        } else {
            ServerState::Booting
        },
        reconciled(ServerState::Booting, active) != ServerState::Off,
{
}

} // verus!
