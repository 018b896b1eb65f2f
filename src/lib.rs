//! An SNMPv3 command generator core: the value model and its display rules, the
//! directory that turns numeric object identifiers into names, key localization,
//! the per-agent session counters, request preparation and response matching for
//! GET / GETNEXT, and the GETNEXT walk as a state machine that a transport drives.
pub mod error;
pub mod keys;
pub mod oids;
pub mod params;
pub mod request;
pub mod session;
pub mod text;

pub use params::{Command, Params, SnmpResult};
