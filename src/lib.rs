//! Turn-taking for mob programming: a roster of drivers that rotates, a session
//! state machine for handing over, and the schedule that suggests breaks and lunch.
pub mod roster;
pub mod schedule;
pub mod session;
pub mod status;
pub mod turn;
