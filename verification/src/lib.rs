//! Job execution engine of a hardware-in-the-loop CI server for embedded
//! targets: inventory of targets, validation of job descriptions, admission
//! and status tracking, and the per-target probe run.

pub mod analyzer;
pub mod auth;
pub mod builder;
pub mod client;
pub mod elf;
pub mod encoding;
pub mod executor;
pub mod ident;
pub mod job;
pub mod logs;
pub mod machine;
pub mod model;
pub mod runner;
pub mod selector;
pub mod server;
pub mod settings;
pub mod single;
pub mod soundness;
pub mod status;
pub mod target;
pub mod text;
pub mod unord;
pub mod validate;
