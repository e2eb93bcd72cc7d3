pub mod command_args;
pub mod command_batch;
pub mod commands;
pub mod redis_command;
