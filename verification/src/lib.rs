//! The verified core of a desktop system monitor: what it reads from the output of system
//! commands, what it decides, and what it answers. Running the commands, asking the hardware and
//! the window itself are left to the program around it.

pub mod cli;
pub mod commands;
pub mod desktop;
pub mod docker;
pub mod encoding;
pub mod environment;
pub mod export;
pub mod hardware;
pub mod health;
pub mod json;
pub mod laws;
pub mod model;
pub mod netstat;
pub mod number;
pub mod process;
pub mod servers;
pub mod services;
pub mod stats;
pub mod store;
pub mod text;
pub mod usage;
