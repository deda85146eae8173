//! Error taxonomy of the lifecycle controller.

use vstd::prelude::*;

verus! {

/// Failure of a controller operation.
///
/// `InvalidOp` means the requested transition's precondition state was not
/// met; the message describes what was asked of which state. `NonzeroExit`
/// means the external start/stop command ran to completion but reported
/// failure; it carries the raw wait status (0 would mean success, a negative
/// value stands for termination by a signal). `BackendIo` means the external
/// query or command could not be executed at all; the message carries the
/// underlying I/O error's description.
#[derive(Debug)]
pub enum McError {
    InvalidOp(String),
    NonzeroExit(i32),
    BackendIo(String),
}

pub type McResult<T> = Result<T, McError>;

/// Message carried by the `InvalidOp` error of an operation that needs the
/// service to be off and found it in `st`.
pub open spec fn not_off_msg(st: crate::proto::ServerState) -> Seq<char> {
    "Server is not in Off state: "@ + st.label_spec()
}

/// Message carried by the `InvalidOp` error of an operation that needs the
/// service to be on and found it in `st`.
pub open spec fn not_on_msg(st: crate::proto::ServerState) -> Seq<char> {
    "Server is not in On state: "@ + st.label_spec()
}

} // verus!
