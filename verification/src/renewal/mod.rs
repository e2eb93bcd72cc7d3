pub mod lock_entry;
pub mod lock_renewal_scheduler;
pub mod lock_task;
pub mod renewal_task;
