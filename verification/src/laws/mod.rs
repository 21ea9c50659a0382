//! What the functions of the library promise, stated over what they are given and what they
//! return.

pub mod cli;
pub mod commands;
pub mod desktop;
pub mod environment;
pub mod hardware;
pub mod listings;
pub mod netstat;
pub mod number;
pub mod process;
pub mod servers;
pub mod stats;
pub mod store;
pub mod text;
pub mod usage;
