pub mod channel_waiters;
