//! A minimal subscription-intake library: validated subscriber names and
//! email addresses, a configuration model with redacted secrets, and a
//! storage capability interface with a verified in-memory pool model.

pub mod configuration;
pub mod database;
pub mod domain;
pub mod routes;
