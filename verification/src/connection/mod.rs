pub mod service_manager;
