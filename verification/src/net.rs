pub mod error;
pub mod limiter_table;
pub mod net_error;
pub mod rate_limiter;
pub mod req_sender;
pub mod reqest_sender;
