//! Control bridge for an external relay-controller executable: locating the
//! executable, building its command lines, and shaping what it reports.
pub mod command;
pub mod resolver;
pub mod invoke;
pub mod bridge;
