//! A reentrant distributed lock on Redis.
//!
//! The library holds the lock's logic: how keys, channels and latches are
//! named, what the Lua scripts are handed and what their replies mean, the
//! decisions of an acquisition attempt (try, subscribe, wait, give up), the
//! watchdog's registry of held locks, the batch queue, and the service
//! configuration. Talking to Redis is left to the caller.

pub mod command;
pub mod config;
pub mod connection;
pub mod hash_tag;
pub mod keyed;
pub mod lock_attempt;
pub mod lock_script_model;
pub mod outside;
pub mod pubsub;
pub mod redisson_base_lock;
pub mod redisson_lock;
pub mod renewal;
pub mod text;
