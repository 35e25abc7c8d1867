pub mod flag;
