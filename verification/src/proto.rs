//! Messages exchanged between the controller, the scheduler and the node agents.
//! Enumerations travel as `i32` values inside messages; each enumeration converts
//! to and from its wire value.
pub mod agent;
pub mod controller;
pub mod scheduler;
