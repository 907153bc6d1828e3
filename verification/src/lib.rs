//! Single-goal navigation client logic.
//!
//! The crate holds the decisions of a client that sends one pose goal to a
//! navigation action server: the waypoint data, the goal message that is
//! built from it, and the workflow state machine that a driver feeds with
//! the events it observes on the middleware.
//!
//! Real numbers are carried as IEEE-754 binary64 bit patterns (the value of
//! `f64::to_bits`), so that "copied verbatim" is an exact statement.

pub mod console;
pub mod laws;
pub mod message;
pub mod send_goal;
pub mod waypoint;
pub mod workflow;

pub use crate::waypoint::Waypoint;
