//! Verified core of the C2S lab workstation setup tool: the machine
//! configuration and its persisted state, the dashboard's state machine,
//! package-name resolution, and the small parsers the installer relies on.

pub mod text;
pub mod state;
pub mod config;
pub mod users;
pub mod app;
pub mod dependency;
pub mod network;
pub mod validation;
pub mod layout;
pub mod details;
pub mod flows;
pub mod tools;
