//! Tails event sources (a counter, the filesystem, the system journal,
//! container logs), normalises their events into records, and coalesces
//! bursts of same-topic records into one editable outbound message.

pub mod record;
pub mod text;
pub mod utils;
pub mod debouncer;
pub mod filesystem;
pub mod journald;
pub mod docker;
pub mod counter;
pub mod source;
pub mod format;
pub mod message;
pub mod telegram;
pub mod config;
pub mod logger;
pub mod chat;
