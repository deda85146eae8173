//! Backend library for a small personal-site server: a verified lifecycle
//! controller for one externally managed service, the unit-status data model
//! it reconciles against, and the user store for the control channel.

pub mod auth;
pub mod checkpoint_stream;
pub mod controller;
pub mod error;
pub mod mc_server;
pub mod proto;
pub mod systemctl;
pub mod text;
pub mod util;
