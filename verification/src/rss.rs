pub mod write;
