pub mod cache;
pub mod fs;
pub mod string_map;
pub mod time;
pub mod url;
