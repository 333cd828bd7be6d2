pub mod editors;
pub mod insert_mode;
