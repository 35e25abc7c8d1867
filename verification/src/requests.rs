pub mod get_data;
