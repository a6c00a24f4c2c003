//! Session management for remote application instances tunnelled over SSH:
//! command validation, settings sanitisation, remote probing and the
//! supervisor's decisions, all stated over plain values.

pub mod attempt;
pub mod command;
pub mod command_laws;
pub mod connect;
pub mod connect_laws;
pub mod executor;
pub mod hashing;
pub mod hosts;
pub mod hosts_laws;
pub mod import;
pub mod journal;
pub mod launch;
pub mod liveness;
pub mod model;
pub mod number;
pub mod order;
pub mod overview;
pub mod probe;
pub mod registry;
pub mod remote;
pub mod sanitize;
pub mod shell;
pub mod status;
pub mod stored;
pub mod supervisor;
pub mod teardown;
pub mod text;
