//! Core logic of a yt-dlp task spooler: the task state machine, the task
//! registry and its persistence format, request handling decisions and the
//! text formats shared by the daemon and its client.

pub mod cli;
pub mod client;
pub mod common;
pub mod config;
pub mod daemon;
pub mod download;
pub mod locations;
pub mod manager;
pub mod processor;
pub mod serialize;
pub mod task;
pub mod tasks;
pub mod text;
pub mod transition;
