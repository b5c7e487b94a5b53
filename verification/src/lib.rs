//! Named text templates with default inputs, and their composition.
//!
//! A [`repository::database::Database`] holds the two tables of the
//! persistence model, templates and their inputs, together with the
//! constraints of the schema. The repositories in [`repository`] read and
//! write it, the service in [`service::templating`] puts the business rules on
//! top, and the engine in [`service::compose`] merges default values with
//! overrides before the template body is rendered. [`handler`] takes requests
//! apart for the service, and [`seed`] stores the templates that an
//! installation starts with.
//!
//! Every operation states what it returns and how it changes the database
//! over the mathematical model of the database, [`repository::database::DatabaseView`].
//! What holds across operations is proved in [`repository::laws`] and
//! [`service::laws`].

pub mod config;
pub mod errors;
pub mod handler;
pub mod messages;
pub mod repository;
pub mod seed;
pub mod service;
