//! Configuration values shared by the command-line and web front ends:
//! the network endpoint and its connection string, the application
//! settings, the session identifier that tags one run, and the lines
//! that each front end prints at start.

pub mod config;
pub mod decimal;
pub mod front_end;
pub mod network;
pub mod session;
