pub mod crawler;
pub mod manager;
