pub mod watchlist;
