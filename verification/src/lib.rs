//! The verified core of c9watch, a monitor for the running sessions of a
//! command line coding agent.

pub mod path;
pub mod proc;
pub mod session;
pub mod settings;
pub mod web_server;
