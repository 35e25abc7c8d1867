pub mod book;
pub mod error;
pub mod watchlist;
