//! Verified core of a rate-paced stream generator and its stream drains.

pub mod config;
pub mod deadline;
pub mod drain;
pub mod frame;
pub mod mode;
pub mod pacer;
pub mod schedule;
