//! Decision logic for finding nearby power-tracking base stations over a
//! short-range radio, showing the power state they are in and switching it.
//!
//! The crate talks to no radio. Each component is a function from what has
//! happened so far to what has to happen next; a driver carries the requests
//! out and hands the answers back.
//!
//! - [`power_state`]: the status byte of a station and the state it stands for.
//! - [`filter`]: which station names the operator still waits for.
//! - [`command`]: what the operator asks for.
//! - [`radio`]: the requests to the radio and its replies.
//! - [`discover`]: the pipeline from the radio's events to stations that are
//!   ready.
//! - [`scan`]: the loop that reads, reports and commands the stations.

pub mod command;
pub mod discover;
pub mod filter;
pub mod power_state;
pub mod radio;
pub mod scan;

pub use command::Command;
pub use discover::Discovery;
pub use filter::Filter;
pub use power_state::PowerState;
pub use scan::Scanner;
