pub mod crawl;
pub mod page;
