pub mod blueprint;
pub mod process;
pub mod process_tree;
pub mod termination;
pub mod text;
pub mod transport;
pub mod transport_manager;
pub mod runner_config;
pub mod server;
pub mod lifecycle;
pub mod runner;
pub mod platforms;
