pub mod rss_ops;
