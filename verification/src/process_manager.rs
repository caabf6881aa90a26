pub mod instructions;
pub mod manager;
