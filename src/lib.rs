//! Watch-to-dispatch engine of a directory replication daemon.
//!
//! The library decides; the daemon around it watches directories, resolves
//! paths and copies files. `config` holds the configured rules, `table` the
//! startup checks and the watch-handle table, `dispatch` the handling of a
//! single change notification, and `copy_round` the per-destination copies
//! of one notification.
pub mod config;
pub mod copy_round;
pub mod dispatch;
pub mod table;
