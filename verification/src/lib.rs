//! Verified core of a database backup tool: retention rules, backup file
//! naming, object-key construction, configuration handling and the step
//! machines that drive the backup, upload and delete commands.

pub mod date;
pub mod text;
pub mod error;
pub mod storage;
pub mod cleanup;
pub mod config;
pub mod database;
pub mod compression;
pub mod command;
pub mod laws;
