pub mod database;
pub mod input;
pub mod laws;
pub mod template;
