pub mod net;
pub mod utils;
pub mod process_manager;
pub mod net_client;
pub mod database;
pub mod crawler;
