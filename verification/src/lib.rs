//! Follows a watchlist of books in the publication register of Vietnam and keeps an RSS
//! feed for each: reading the register's result table, remembering when each book was first
//! seen, and assembling the feed so that dates stay the same from run to run.

pub mod config;
pub mod discord;
pub mod file_ops;
pub mod requests;
pub mod rss;
pub mod services;
pub mod sorting;
pub mod text;
pub mod types;
pub mod utils;
pub mod worker;
