pub mod templating;
