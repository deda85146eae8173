//! Management of external services through a unit interface: the data model
//! of a unit, the capability trait the lifecycle controller consumes, the
//! simulated backend, and the interpretation of the unit tool's output.

pub mod commands;
pub mod sim_unit;
pub mod sys_unit;
pub mod unit;
pub mod unit_list;
