pub mod equal_jitter_delay;
pub mod redisson_config;
pub mod server_mode;
pub mod sharded_subscription_mode;
