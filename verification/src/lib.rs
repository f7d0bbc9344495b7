//! Core of a tool that keeps a Trello board in step with Canvas assignments.
//!
//! Nothing here touches the network, the environment or a clock. Every
//! operation is a function from plain values to plain values: requests to
//! send are described, answers that came back are interpreted, and the
//! start-up sequence is a state machine whose driver performs the actions.

pub mod text;
pub mod http;
pub mod trello;
pub mod canvas;
pub mod persistent_info;
pub mod web_handlers;
pub mod config;
pub mod bootstrap;
