//! A pseudo-terminal shell session: the decisions behind launching a shell,
//! forwarding input to it, sizing its terminal, detecting when it is idle at a
//! prompt, and terminating it.
pub mod error;
pub mod forward;
pub mod geometry;
pub mod kill;
pub mod launch;
pub mod metadata;
pub mod payload;
pub mod process_table;
pub mod readiness;
