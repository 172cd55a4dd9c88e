//! Disk space reporting: turns free-space readings of the mounted volumes
//! into a plain-text report, decides what a run of the program does next,
//! and prepares the one mail that carries the report.

pub mod artifacts;
pub mod command;
pub mod config;
pub mod decimal;
pub mod disk;
pub mod mail;
pub mod report;
pub mod run;
