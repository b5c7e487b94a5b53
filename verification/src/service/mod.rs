pub mod compose;
pub mod guard;
pub mod laws;
pub mod templating;
